//! The decisions of a login run: retries, failure classification and the
//! response that ends the run.
//!
//! A run alternates outside work (HTTP requests, captcha recognition,
//! waiting) with decisions.  `LoginFlow` holds the state of the decisions;
//! each `step` takes what the outside work produced and says what to do
//! next, until it answers `LoginAction::Finish`.
use vstd::prelude::*;

use crate::models::{
    default_login_options, ConfidenceSource, LoginFailureKind, LoginOptions, LoginResponse,
    LoginResponseView,
};
use crate::portal::{opt_string_view, LoginSubmitResult, LoginSubmitResultView};
use crate::text::{concat_str, has_substring, lowercase, str_contains, to_lowercase};

verus! {

// ---------------------------------------------------------------------------
// Messages.
// ---------------------------------------------------------------------------

pub open spec fn network_unavailable_message() -> Seq<char> {
    "当前网络不可用，请检查网络连接后重试"@
}

pub open spec fn portal_unreachable_message() -> Seq<char> {
    "认证网页暂时无法访问，请确认校园网环境或稍后重试"@
}

pub open spec fn request_failed_prefix() -> Seq<char> {
    "网络请求失败: "@
}

pub open spec fn probe_failed_message() -> Seq<char> {
    "登录成功但连通性检测失败"@
}

pub open spec fn pre_login_probe_failed_message() -> Seq<char> {
    "登录前连通性检测失败"@
}

pub open spec fn login_succeeded_message() -> Seq<char> {
    "登录成功"@
}

pub open spec fn retries_exhausted_message() -> Seq<char> {
    "登录失败，已达到最大重试次数"@
}

pub open spec fn post_sync_failed_prefix() -> Seq<char> {
    "post login sync failed: "@
}

pub open spec fn ocr_failed_prefix() -> Seq<char> {
    "captcha OCR failed: "@
}

/// Number of rounds of a connectivity probe.
pub open spec fn probe_rounds() -> u32 {
    3
}

/// Pause between connectivity probe rounds, in milliseconds.
pub open spec fn probe_interval_ms() -> u64 {
    1200
}

/// Pause after attempt `k` (counted from 1) before the next one, in
/// milliseconds: 500, doubling with each attempt, at most 4000.
pub open spec fn retry_backoff_ms(k: u32) -> u64 {
    if k <= 1 {
        500
    } else if k == 2 {
        1000
    } else if k == 3 {
        2000
    } else {
        4000
    }
}

/// The pause after attempt `k`: see `retry_backoff_ms`.
pub fn backoff_after(k: u32) -> (ms: u64)
    ensures
        ms == retry_backoff_ms(k),
{
    if k <= 1 {
        500
    } else if k == 2 {
        1000
    } else if k == 3 {
        2000
    } else {
        4000
    }
}

/// The attempt ends without an answer: the run pauses before the next
/// attempt, or, after the last one, ends.
pub open spec fn retry(s: LoginFlowView) -> (LoginFlowView, LoginActionView) {
    if s.attempt < s.options.max_login_retries {
        (
            LoginFlowView { stage: LoginStage::AwaitBackoff, ..s },
            LoginActionView::Sleep(retry_backoff_ms(s.attempt)),
        )
    } else {
        advance(s)
    }
}

// ---------------------------------------------------------------------------
// Classification of transport failures.
// ---------------------------------------------------------------------------

/// The lowered error text says that the network itself is down.
pub open spec fn signals_network_unavailable(lowered: Seq<char>) -> bool {
    ||| has_substring(lowered, "network is unreachable"@)
    ||| has_substring(lowered, "no route to host"@)
    ||| has_substring(lowered, "dns error"@)
    ||| has_substring(lowered, "failed to lookup address information"@)
    ||| has_substring(lowered, "temporary failure in name resolution"@)
}

/// The lowered error text says that the portal could not be reached.
pub open spec fn signals_portal_unreachable(lowered: Seq<char>) -> bool {
    ||| has_substring(lowered, "connection refused"@)
    ||| has_substring(lowered, "timed out"@)
    ||| has_substring(lowered, "deadline has elapsed"@)
    ||| has_substring(lowered, "endpoint="@)
}

/// Kind and user-facing message of a transport failure whose error text is
/// `raw` and whose lowercased text is `lowered`.
pub open spec fn classify_lowered(lowered: Seq<char>, raw: Seq<char>) -> (
    LoginFailureKind,
    Seq<char>,
) {
    if signals_network_unavailable(lowered) {
        (LoginFailureKind::NetworkUnavailable, network_unavailable_message())
    } else if signals_portal_unreachable(lowered) {
        (LoginFailureKind::PortalPageUnreachable, portal_unreachable_message())
    } else {
        (LoginFailureKind::Unknown, request_failed_prefix() + raw)
    }
}

/// Kind and message of a transport failure with error text `raw`.
pub open spec fn classify_transport(raw: Seq<char>) -> (LoginFailureKind, Seq<char>) {
    classify_lowered(lowercase(raw), raw)
}

/// Classifies a transport failure given its error text and that text
/// lowercased.
pub fn classify_lowered_failure(lowered: &str, raw: &str) -> (r: (LoginFailureKind, String))
    ensures
        (r.0, r.1@) == classify_lowered(lowered@, raw@),
{
    let network_unavailable = str_contains(lowered, "network is unreachable") || str_contains(
        lowered,
        "no route to host",
    ) || str_contains(lowered, "dns error") || str_contains(
        lowered,
        "failed to lookup address information",
    ) || str_contains(lowered, "temporary failure in name resolution");
    if network_unavailable {
        return (
            LoginFailureKind::NetworkUnavailable,
            String::from_str("当前网络不可用，请检查网络连接后重试"),
        );
    }
    let portal_unreachable = str_contains(lowered, "connection refused") || str_contains(
        lowered,
        "timed out",
    ) || str_contains(lowered, "deadline has elapsed") || str_contains(lowered, "endpoint=");
    if portal_unreachable {
        return (
            LoginFailureKind::PortalPageUnreachable,
            String::from_str("认证网页暂时无法访问，请确认校园网环境或稍后重试"),
        );
    }
    (LoginFailureKind::Unknown, concat_str("网络请求失败: ", raw))
}

/// Classifies a transport failure by its error text.
pub fn classify_transport_failure(raw_error: &str) -> (r: (LoginFailureKind, String))
    ensures
        (r.0, r.1@) == classify_transport(raw_error@),
{
    let lowered = to_lowercase(raw_error);
    classify_lowered_failure(lowered.as_str(), raw_error)
}

// ---------------------------------------------------------------------------
// Responses.
// ---------------------------------------------------------------------------

/// A response for a run that did not succeed.
pub open spec fn failed_response_spec(
    message: Seq<char>,
    captcha_text: Seq<char>,
    confidence: ConfidenceSource,
    attempt: u32,
    probe_passed: bool,
    failure_kind: Option<LoginFailureKind>,
) -> LoginResponseView {
    LoginResponseView {
        success: false,
        message,
        captcha_text,
        confidence,
        attempt,
        probe_passed,
        failure_kind,
    }
}

/// The response for a run that ended on a transport failure.
pub open spec fn transport_failure_spec(
    raw_error: Seq<char>,
    attempt: u32,
    captcha_text: Seq<char>,
    confidence: ConfidenceSource,
) -> LoginResponseView {
    let (kind, message) = classify_transport(raw_error);
    failed_response_spec(message, captcha_text, confidence, attempt, false, Some(kind))
}

/// Builds the response of a run that did not succeed.
pub fn failed_response(
    message: String,
    captcha_text: String,
    confidence: ConfidenceSource,
    attempt: u32,
    probe_passed: bool,
    failure_kind: Option<LoginFailureKind>,
) -> (r: LoginResponse)
    ensures
        r@ == failed_response_spec(
            message@,
            captcha_text@,
            confidence,
            attempt,
            probe_passed,
            failure_kind,
        ),
{
    LoginResponse {
        success: false,
        message,
        captcha_text,
        confidence,
        attempt,
        probe_passed,
        failure_kind,
    }
}

/// Builds the response of a run that ended on a transport failure.
pub fn transport_failure_response(
    raw_error: &str,
    attempt: u32,
    captcha_text: String,
    confidence: ConfidenceSource,
) -> (r: LoginResponse)
    ensures
        r@ == transport_failure_spec(raw_error@, attempt, captcha_text@, confidence),
{
    let (failure_kind, message) = classify_transport_failure(raw_error);
    failed_response(message, captcha_text, confidence, attempt, false, Some(failure_kind))
}

/// The submit answer names a failure after which retrying cannot help.
pub open spec fn is_credential_failure(kind: Option<LoginFailureKind>) -> bool {
    kind == Some(LoginFailureKind::InvalidCredentials) || kind == Some(
        LoginFailureKind::InvalidCredentialsOrLocked,
    ) || kind == Some(LoginFailureKind::AccountLocked)
}

fn is_credential_failure_exec(kind: Option<LoginFailureKind>) -> (b: bool)
    ensures
        b == is_credential_failure(kind),
{
    match kind {
        Some(LoginFailureKind::InvalidCredentials) => true,
        Some(LoginFailureKind::InvalidCredentialsOrLocked) => true,
        Some(LoginFailureKind::AccountLocked) => true,
        _ => false,
    }
}

// ---------------------------------------------------------------------------
// The login run.
// ---------------------------------------------------------------------------

/// What the run is waiting for.
#[derive(Clone, Copy, Debug, PartialEq, Eq, Structural)]
pub enum LoginStage {
    AwaitSession,
    /// Waiting for the connectivity probe that the options require before
    /// the first login attempt.
    AwaitPreProbe,
    AwaitCaptcha,
    AwaitRecognition,
    AwaitSubmit,
    AwaitPostSync,
    AwaitProbe,
    AwaitBackoff,
    Finished,
}

/// The state of a login run.
#[derive(Debug)]
pub struct LoginFlow {
    pub options: LoginOptions,
    /// Number of the current attempt (0 before the first).
    pub attempt: u32,
    pub stage: LoginStage,
    pub last_error_message: Option<String>,
    pub last_failure_kind: Option<LoginFailureKind>,
    /// Text of the most recent captcha recognition.
    pub last_captcha_text: String,
    /// Whether any captcha has been recognized in this run.
    pub recognized: bool,
    /// Whether the connectivity probe before the first attempt passed.
    pub pre_probe_passed: bool,
}

/// A `LoginFlow` with its strings as character sequences.
#[verifier::ext_equal]
pub struct LoginFlowView {
    pub options: LoginOptions,
    pub attempt: u32,
    pub stage: LoginStage,
    pub last_error_message: Option<Seq<char>>,
    pub last_failure_kind: Option<LoginFailureKind>,
    pub last_captcha_text: Seq<char>,
    pub recognized: bool,
    pub pre_probe_passed: bool,
}

impl View for LoginFlow {
    type V = LoginFlowView;

    open spec fn view(&self) -> LoginFlowView {
        LoginFlowView {
            options: self.options,
            attempt: self.attempt,
            stage: self.stage,
            last_error_message: opt_string_view(self.last_error_message),
            last_failure_kind: self.last_failure_kind,
            last_captcha_text: self.last_captcha_text@,
            recognized: self.recognized,
            pre_probe_passed: self.pre_probe_passed,
        }
    }
}

/// The result of a piece of outside work, handed back to the run.
pub enum LoginEvent {
    SessionInitialized(Result<(), String>),
    CaptchaFetched(Result<(), String>),
    CaptchaRecognized(Result<String, String>),
    LoginSubmitted(Result<LoginSubmitResult, String>),
    PostLoginSynced(Result<(), String>),
    ConnectivityProbed(Result<bool, String>),
    BackoffElapsed,
}

/// A `LoginEvent` with its strings as character sequences.
#[verifier::ext_equal]
pub enum LoginEventView {
    SessionInitialized(Result<(), Seq<char>>),
    CaptchaFetched(Result<(), Seq<char>>),
    CaptchaRecognized(Result<Seq<char>, Seq<char>>),
    LoginSubmitted(Result<LoginSubmitResultView, Seq<char>>),
    PostLoginSynced(Result<(), Seq<char>>),
    ConnectivityProbed(Result<bool, Seq<char>>),
    BackoffElapsed,
}

pub open spec fn unit_result_view(r: Result<(), String>) -> Result<(), Seq<char>> {
    match r {
        Ok(()) => Ok(()),
        Err(e) => Err(e@),
    }
}

impl View for LoginEvent {
    type V = LoginEventView;

    open spec fn view(&self) -> LoginEventView {
        match self {
            LoginEvent::SessionInitialized(r) => LoginEventView::SessionInitialized(
                unit_result_view(*r),
            ),
            LoginEvent::CaptchaFetched(r) => LoginEventView::CaptchaFetched(unit_result_view(*r)),
            LoginEvent::CaptchaRecognized(r) => LoginEventView::CaptchaRecognized(
                match r {
                    Ok(t) => Ok(t@),
                    Err(e) => Err(e@),
                },
            ),
            LoginEvent::LoginSubmitted(r) => LoginEventView::LoginSubmitted(
                match r {
                    Ok(s) => Ok(s@),
                    Err(e) => Err(e@),
                },
            ),
            LoginEvent::PostLoginSynced(r) => LoginEventView::PostLoginSynced(
                unit_result_view(*r),
            ),
            LoginEvent::ConnectivityProbed(r) => LoginEventView::ConnectivityProbed(
                match r {
                    Ok(b) => Ok(*b),
                    Err(e) => Err(e@),
                },
            ),
            LoginEvent::BackoffElapsed => LoginEventView::BackoffElapsed,
        }
    }
}

/// The outside work the run asks for next, or its end.
#[derive(Debug)]
pub enum LoginAction {
    InitSession,
    FetchCaptcha,
    RecognizeCaptcha,
    SubmitLogin(String),
    PostLoginSync,
    ProbeConnectivity { rounds: u32, interval_ms: u64 },
    Sleep(u64),
    Finish(Result<LoginResponse, String>),
}

/// A `LoginAction` with its strings as character sequences.
#[verifier::ext_equal]
pub enum LoginActionView {
    InitSession,
    FetchCaptcha,
    RecognizeCaptcha,
    SubmitLogin(Seq<char>),
    PostLoginSync,
    ProbeConnectivity { rounds: u32, interval_ms: u64 },
    Sleep(u64),
    Finish(Result<LoginResponseView, Seq<char>>),
}

impl View for LoginAction {
    type V = LoginActionView;

    open spec fn view(&self) -> LoginActionView {
        match self {
            LoginAction::InitSession => LoginActionView::InitSession,
            LoginAction::FetchCaptcha => LoginActionView::FetchCaptcha,
            LoginAction::RecognizeCaptcha => LoginActionView::RecognizeCaptcha,
            LoginAction::SubmitLogin(c) => LoginActionView::SubmitLogin(c@),
            LoginAction::PostLoginSync => LoginActionView::PostLoginSync,
            LoginAction::ProbeConnectivity { rounds, interval_ms } => {
                LoginActionView::ProbeConnectivity { rounds: *rounds, interval_ms: *interval_ms }
            },
            LoginAction::Sleep(ms) => LoginActionView::Sleep(*ms),
            LoginAction::Finish(r) => LoginActionView::Finish(
                match r {
                    Ok(resp) => Ok(resp@),
                    Err(e) => Err(e@),
                },
            ),
        }
    }
}

/// The state at the start of a run with the given options (the defaults
/// when none are given).
pub open spec fn initial_flow(options: Option<LoginOptions>) -> LoginFlowView {
    LoginFlowView {
        options: match options {
            Some(o) => o,
            None => default_login_options(),
        },
        attempt: 0,
        stage: LoginStage::AwaitSession,
        last_error_message: None,
        last_failure_kind: None,
        last_captcha_text: Seq::empty(),
        recognized: false,
        pre_probe_passed: false,
    }
}

/// The stages of an attempt, from the captcha fetch to the pause after it.
pub open spec fn in_attempt(stage: LoginStage) -> bool {
    stage != LoginStage::AwaitSession && stage != LoginStage::AwaitPreProbe && stage
        != LoginStage::Finished
}

/// The states a run can be in.
pub open spec fn flow_wf(s: LoginFlowView) -> bool {
    &&& s.attempt <= s.options.max_login_retries
    &&& s.stage == LoginStage::AwaitSession ==> s.attempt == 0
    &&& s.stage == LoginStage::AwaitPreProbe ==> s.attempt == 0 && s.options.probe_required
    &&& in_attempt(s.stage) ==> s.attempt >= 1
    &&& (in_attempt(s.stage) && s.options.probe_required) ==> s.pre_probe_passed
    &&& s.stage == LoginStage::AwaitBackoff ==> s.attempt < s.options.max_login_retries
    &&& (s.stage == LoginStage::AwaitSubmit || s.stage == LoginStage::AwaitPostSync || s.stage
        == LoginStage::AwaitProbe) ==> s.recognized
}

/// The event is the one the run waits for in stage `stage`.
pub open spec fn expects(stage: LoginStage, e: LoginEventView) -> bool {
    match e {
        LoginEventView::SessionInitialized(_) => stage == LoginStage::AwaitSession,
        LoginEventView::CaptchaFetched(_) => stage == LoginStage::AwaitCaptcha,
        LoginEventView::CaptchaRecognized(_) => stage == LoginStage::AwaitRecognition,
        LoginEventView::LoginSubmitted(_) => stage == LoginStage::AwaitSubmit,
        LoginEventView::PostLoginSynced(_) => stage == LoginStage::AwaitPostSync,
        LoginEventView::ConnectivityProbed(_) => stage == LoginStage::AwaitPreProbe || stage
            == LoginStage::AwaitProbe,
        LoginEventView::BackoffElapsed => stage == LoginStage::AwaitBackoff,
    }
}

/// The response of a run whose attempts are all used up.
pub open spec fn exhausted_response(s: LoginFlowView) -> LoginResponseView {
    failed_response_spec(
        match s.last_error_message {
            Some(m) => m,
            None => retries_exhausted_message(),
        },
        s.last_captcha_text,
        if s.recognized {
            ConfidenceSource::LastRecognition
        } else {
            ConfidenceSource::Zero
        },
        s.options.max_login_retries,
        false,
        match s.last_failure_kind {
            Some(k) => Some(k),
            None => Some(LoginFailureKind::MaxRetriesExceeded),
        },
    )
}

/// The run ends with `r`.
pub open spec fn finish(s: LoginFlowView, r: Result<LoginResponseView, Seq<char>>) -> (
    LoginFlowView,
    LoginActionView,
) {
    (LoginFlowView { stage: LoginStage::Finished, ..s }, LoginActionView::Finish(r))
}

/// The next attempt begins, or the run ends when none is left.
pub open spec fn advance(s: LoginFlowView) -> (LoginFlowView, LoginActionView) {
    if s.attempt < s.options.max_login_retries {
        (
            LoginFlowView { attempt: (s.attempt + 1) as u32, stage: LoginStage::AwaitCaptcha, ..s },
            LoginActionView::FetchCaptcha,
        )
    } else {
        finish(s, Ok(exhausted_response(s)))
    }
}

/// One decision of the run: the next state and the next action, given the
/// state and the result of the work it asked for.
pub open spec fn step_spec(s: LoginFlowView, e: LoginEventView) -> (
    LoginFlowView,
    LoginActionView,
) {
    match e {
        LoginEventView::SessionInitialized(Err(err)) => finish(
            s,
            Ok(transport_failure_spec(err, 0, Seq::empty(), ConfidenceSource::Zero)),
        ),
        LoginEventView::SessionInitialized(Ok(())) => if s.options.probe_required {
            (
                LoginFlowView { stage: LoginStage::AwaitPreProbe, ..s },
                LoginActionView::ProbeConnectivity {
                    rounds: probe_rounds(),
                    interval_ms: probe_interval_ms(),
                },
            )
        } else {
            advance(s)
        },
        LoginEventView::ConnectivityProbed(Err(err)) if s.stage == LoginStage::AwaitPreProbe => finish(
            s,
            Ok(transport_failure_spec(err, 0, Seq::empty(), ConfidenceSource::Zero)),
        ),
        LoginEventView::ConnectivityProbed(Ok(passed)) if s.stage == LoginStage::AwaitPreProbe => {
            if passed {
                advance(LoginFlowView { pre_probe_passed: true, ..s })
            } else {
                finish(
                    s,
                    Ok(
                        failed_response_spec(
                            pre_login_probe_failed_message(),
                            Seq::empty(),
                            ConfidenceSource::Zero,
                            0,
                            false,
                            Some(LoginFailureKind::ConnectivityProbeFailed),
                        ),
                    ),
                )
            }
        },
        LoginEventView::CaptchaFetched(Err(err)) => finish(
            s,
            Ok(transport_failure_spec(err, s.attempt, Seq::empty(), ConfidenceSource::Zero)),
        ),
        LoginEventView::CaptchaFetched(Ok(())) => (
            LoginFlowView { stage: LoginStage::AwaitRecognition, ..s },
            LoginActionView::RecognizeCaptcha,
        ),
        LoginEventView::CaptchaRecognized(Err(err)) => finish(s, Err(ocr_failed_prefix() + err)),
        LoginEventView::CaptchaRecognized(Ok(text)) => {
            let s2 = LoginFlowView { last_captcha_text: text, recognized: true, ..s };
            if text.len() == 0 {
                retry(s2)
            } else {
                (
                    LoginFlowView { stage: LoginStage::AwaitSubmit, ..s2 },
                    LoginActionView::SubmitLogin(text),
                )
            }
        },
        LoginEventView::LoginSubmitted(Err(err)) => finish(
            s,
            Ok(
                transport_failure_spec(
                    err,
                    s.attempt,
                    s.last_captcha_text,
                    ConfidenceSource::LastRecognition,
                ),
            ),
        ),
        LoginEventView::LoginSubmitted(Ok(sub)) => {
            if sub.success {
                (
                    LoginFlowView { stage: LoginStage::AwaitPostSync, ..s },
                    LoginActionView::PostLoginSync,
                )
            } else {
                let s2 = match sub.message {
                    Some(m) => LoginFlowView {
                        last_error_message: Some(m),
                        last_failure_kind: sub.failure_kind,
                        ..s
                    },
                    None => s,
                };
                if sub.message is Some && is_credential_failure(sub.failure_kind) {
                    finish(
                        s2,
                        Ok(
                            failed_response_spec(
                                sub.message->0,
                                s.last_captcha_text,
                                ConfidenceSource::LastRecognition,
                                s.attempt,
                                false,
                                sub.failure_kind,
                            ),
                        ),
                    )
                } else {
                    retry(s2)
                }
            }
        },
        LoginEventView::PostLoginSynced(Err(err)) => finish(
            s,
            Ok(
                transport_failure_spec(
                    post_sync_failed_prefix() + err,
                    s.attempt,
                    s.last_captcha_text,
                    ConfidenceSource::LastRecognition,
                ),
            ),
        ),
        LoginEventView::PostLoginSynced(Ok(())) => (
            LoginFlowView { stage: LoginStage::AwaitProbe, ..s },
            LoginActionView::ProbeConnectivity {
                rounds: probe_rounds(),
                interval_ms: probe_interval_ms(),
            },
        ),
        LoginEventView::ConnectivityProbed(Err(err)) => finish(
            s,
            Ok(
                transport_failure_spec(
                    err,
                    s.attempt,
                    s.last_captcha_text,
                    ConfidenceSource::LastRecognition,
                ),
            ),
        ),
        LoginEventView::ConnectivityProbed(Ok(passed)) => {
            if s.options.probe_required && !passed {
                finish(
                    s,
                    Ok(
                        failed_response_spec(
                            probe_failed_message(),
                            s.last_captcha_text,
                            ConfidenceSource::LastRecognition,
                            s.attempt,
                            passed,
                            Some(LoginFailureKind::ConnectivityProbeFailed),
                        ),
                    ),
                )
            } else {
                finish(
                    s,
                    Ok(
                        LoginResponseView {
                            success: true,
                            message: login_succeeded_message(),
                            captcha_text: s.last_captcha_text,
                            confidence: ConfidenceSource::LastRecognition,
                            attempt: s.attempt,
                            probe_passed: passed,
                            failure_kind: None,
                        },
                    ),
                )
            }
        },
        LoginEventView::BackoffElapsed => advance(s),
    }
}

impl LoginFlow {
    /// Starts a run; the first thing to do is to open a portal session.
    pub fn start(options: Option<LoginOptions>) -> (r: (LoginFlow, LoginAction))
        ensures
            r.0@ == initial_flow(options),
            r.1@ == LoginActionView::InitSession,
            flow_wf(r.0@),
    {
        let opts = match options {
            Some(o) => o,
            None => LoginOptions::default(),
        };
        let flow = LoginFlow {
            options: opts,
            attempt: 0,
            stage: LoginStage::AwaitSession,
            last_error_message: None,
            last_failure_kind: None,
            last_captcha_text: String::new(),
            recognized: false,
            pre_probe_passed: false,
        };
        (flow, LoginAction::InitSession)
    }

    /// Whether the run waits for `event`.
    pub fn expects(&self, event: &LoginEvent) -> (b: bool)
        ensures
            b == expects(self@.stage, event@),
    {
        match event {
            LoginEvent::SessionInitialized(_) => self.stage == LoginStage::AwaitSession,
            LoginEvent::CaptchaFetched(_) => self.stage == LoginStage::AwaitCaptcha,
            LoginEvent::CaptchaRecognized(_) => self.stage == LoginStage::AwaitRecognition,
            LoginEvent::LoginSubmitted(_) => self.stage == LoginStage::AwaitSubmit,
            LoginEvent::PostLoginSynced(_) => self.stage == LoginStage::AwaitPostSync,
            LoginEvent::ConnectivityProbed(_) => self.stage == LoginStage::AwaitPreProbe
                || self.stage == LoginStage::AwaitProbe,
            LoginEvent::BackoffElapsed => self.stage == LoginStage::AwaitBackoff,
        }
    }

    /// Whether the state is one a run can be in.
    pub fn is_consistent(&self) -> (b: bool)
        ensures
            b == flow_wf(self@),
    {
        let max = self.options.max_login_retries;
        let stage = self.stage;
        let required = self.options.probe_required;
        let in_attempt = stage != LoginStage::AwaitSession && stage != LoginStage::AwaitPreProbe
            && stage != LoginStage::Finished;
        self.attempt <= max && (stage != LoginStage::AwaitSession || self.attempt == 0) && (stage
            != LoginStage::AwaitPreProbe || (self.attempt == 0 && required)) && (!in_attempt
            || self.attempt >= 1) && (!(in_attempt && required) || self.pre_probe_passed) && (
        stage != LoginStage::AwaitBackoff || self.attempt < max) && (!(stage
            == LoginStage::AwaitSubmit || stage == LoginStage::AwaitPostSync || stage
            == LoginStage::AwaitProbe) || self.recognized)
    }

    fn confidence_of_last(&self) -> (c: ConfidenceSource)
        ensures
            c == (if self.recognized {
                ConfidenceSource::LastRecognition
            } else {
                ConfidenceSource::Zero
            }),
    {
        if self.recognized {
            ConfidenceSource::LastRecognition
        } else {
            ConfidenceSource::Zero
        }
    }

    fn finish_with(&mut self, r: Result<LoginResponse, String>) -> (a: LoginAction)
        ensures
            (final(self)@, a@) == finish(
                old(self)@,
                match r {
                    Ok(resp) => Ok(resp@),
                    Err(e) => Err(e@),
                },
            ),
    {
        self.stage = LoginStage::Finished;
        LoginAction::Finish(r)
    }

    fn advance(&mut self) -> (a: LoginAction)
        requires
            old(self).attempt <= old(self).options.max_login_retries,
        ensures
            (final(self)@, a@) == advance(old(self)@),
    {
        if self.attempt < self.options.max_login_retries {
            self.attempt = self.attempt + 1;
            self.stage = LoginStage::AwaitCaptcha;
            LoginAction::FetchCaptcha
        } else {
            let message = match &self.last_error_message {
                Some(m) => m.clone(),
                None => String::from_str("登录失败，已达到最大重试次数"),
            };
            let kind = match self.last_failure_kind {
                Some(k) => Some(k),
                None => Some(LoginFailureKind::MaxRetriesExceeded),
            };
            let conf = self.confidence_of_last();
            let resp = failed_response(
                message,
                self.last_captcha_text.clone(),
                conf,
                self.options.max_login_retries,
                false,
                kind,
            );
            self.finish_with(Ok(resp))
        }
    }

    fn retry(&mut self) -> (a: LoginAction)
        requires
            old(self).attempt <= old(self).options.max_login_retries,
        ensures
            (final(self)@, a@) == retry(old(self)@),
    {
        if self.attempt < self.options.max_login_retries {
            self.stage = LoginStage::AwaitBackoff;
            LoginAction::Sleep(backoff_after(self.attempt))
        } else {
            self.advance()
        }
    }

    /// Takes the result of the requested work and decides what comes next.
    pub fn step(&mut self, event: LoginEvent) -> (a: LoginAction)
        requires
            flow_wf(old(self)@),
            expects(old(self)@.stage, event@),
        ensures
            (final(self)@, a@) == step_spec(old(self)@, event@),
    {
        match event {
            LoginEvent::SessionInitialized(Err(err)) => {
                let resp = transport_failure_response(
                    err.as_str(),
                    0,
                    String::new(),
                    ConfidenceSource::Zero,
                );
                self.finish_with(Ok(resp))
            },
            LoginEvent::SessionInitialized(Ok(())) => {
                if self.options.probe_required {
                    self.stage = LoginStage::AwaitPreProbe;
                    LoginAction::ProbeConnectivity { rounds: 3, interval_ms: 1200 }
                } else {
                    self.advance()
                }
            },
            LoginEvent::ConnectivityProbed(Err(err)) if self.stage == LoginStage::AwaitPreProbe => {
                let resp = transport_failure_response(
                    err.as_str(),
                    0,
                    String::new(),
                    ConfidenceSource::Zero,
                );
                self.finish_with(Ok(resp))
            },
            LoginEvent::ConnectivityProbed(Ok(passed)) if self.stage == LoginStage::AwaitPreProbe => {
                if passed {
                    self.pre_probe_passed = true;
                    self.advance()
                } else {
                    let resp = failed_response(
                        String::from_str("登录前连通性检测失败"),
                        String::new(),
                        ConfidenceSource::Zero,
                        0,
                        false,
                        Some(LoginFailureKind::ConnectivityProbeFailed),
                    );
                    self.finish_with(Ok(resp))
                }
            },
            LoginEvent::CaptchaFetched(Err(err)) => {
                let resp = transport_failure_response(
                    err.as_str(),
                    self.attempt,
                    String::new(),
                    ConfidenceSource::Zero,
                );
                self.finish_with(Ok(resp))
            },
            LoginEvent::CaptchaFetched(Ok(())) => {
                self.stage = LoginStage::AwaitRecognition;
                LoginAction::RecognizeCaptcha
            },
            LoginEvent::CaptchaRecognized(Err(err)) => {
                let msg = concat_str("captcha OCR failed: ", err.as_str());
                self.finish_with(Err(msg))
            },
            LoginEvent::CaptchaRecognized(Ok(text)) => {
                let empty = text.as_str().is_empty();
                let code = text.clone();
                self.last_captcha_text = text;
                self.recognized = true;
                if empty {
                    self.retry()
                } else {
                    self.stage = LoginStage::AwaitSubmit;
                    LoginAction::SubmitLogin(code)
                }
            },
            LoginEvent::LoginSubmitted(Err(err)) => {
                let resp = transport_failure_response(
                    err.as_str(),
                    self.attempt,
                    self.last_captcha_text.clone(),
                    ConfidenceSource::LastRecognition,
                );
                self.finish_with(Ok(resp))
            },
            LoginEvent::LoginSubmitted(Ok(sub)) => {
                if sub.success {
                    self.stage = LoginStage::AwaitPostSync;
                    LoginAction::PostLoginSync
                } else {
                    let kind = sub.failure_kind;
                    match sub.message {
                        Some(msg) => {
                            self.last_error_message = Some(msg.clone());
                            self.last_failure_kind = kind;
                            if is_credential_failure_exec(kind) {
                                let resp = failed_response(
                                    msg,
                                    self.last_captcha_text.clone(),
                                    ConfidenceSource::LastRecognition,
                                    self.attempt,
                                    false,
                                    kind,
                                );
                                return self.finish_with(Ok(resp));
                            }
                        },
                        None => {},
                    }
                    self.retry()
                }
            },
            LoginEvent::PostLoginSynced(Err(err)) => {
                let raw = concat_str("post login sync failed: ", err.as_str());
                let resp = transport_failure_response(
                    raw.as_str(),
                    self.attempt,
                    self.last_captcha_text.clone(),
                    ConfidenceSource::LastRecognition,
                );
                self.finish_with(Ok(resp))
            },
            LoginEvent::PostLoginSynced(Ok(())) => {
                self.stage = LoginStage::AwaitProbe;
                LoginAction::ProbeConnectivity { rounds: 3, interval_ms: 1200 }
            },
            LoginEvent::ConnectivityProbed(Err(err)) => {
                let resp = transport_failure_response(
                    err.as_str(),
                    self.attempt,
                    self.last_captcha_text.clone(),
                    ConfidenceSource::LastRecognition,
                );
                self.finish_with(Ok(resp))
            },
            LoginEvent::ConnectivityProbed(Ok(passed)) => {
                if self.options.probe_required && !passed {
                    let resp = failed_response(
                        String::from_str("登录成功但连通性检测失败"),
                        self.last_captcha_text.clone(),
                        ConfidenceSource::LastRecognition,
                        self.attempt,
                        passed,
                        Some(LoginFailureKind::ConnectivityProbeFailed),
                    );
                    self.finish_with(Ok(resp))
                } else {
                    let resp = LoginResponse {
                        success: true,
                        message: String::from_str("登录成功"),
                        captcha_text: self.last_captcha_text.clone(),
                        confidence: ConfidenceSource::LastRecognition,
                        attempt: self.attempt,
                        probe_passed: passed,
                        failure_kind: None,
                    };
                    self.finish_with(Ok(resp))
                }
            },
            LoginEvent::BackoffElapsed => self.advance(),
        }
    }
}

// ---------------------------------------------------------------------------
// Laws of the login run.
// ---------------------------------------------------------------------------

/// Order of the stages within one attempt, last stage lowest.
pub open spec fn stage_rank(stage: LoginStage) -> int {
    match stage {
        LoginStage::AwaitSession => 8,
        LoginStage::AwaitPreProbe => 7,
        LoginStage::AwaitCaptcha => 6,
        LoginStage::AwaitRecognition => 5,
        LoginStage::AwaitSubmit => 4,
        LoginStage::AwaitPostSync => 3,
        LoginStage::AwaitProbe => 2,
        LoginStage::AwaitBackoff => 1,
        LoginStage::Finished => 0,
    }
}

/// How much work a run has left at most: attempts left, then stages left.
pub open spec fn remaining_work(s: LoginFlowView) -> int {
    (s.options.max_login_retries - s.attempt) * 8 + stage_rank(s.stage)
}

/// A run starts in a valid state, and every step keeps it valid: the
/// attempt number never exceeds the configured maximum, and a login is
/// submitted only for an attempt that has a recognized captcha.
pub proof fn lemma_step_preserves_wf(s: LoginFlowView, e: LoginEventView)
    requires
        flow_wf(s),
        expects(s.stage, e),
    ensures
        flow_wf(step_spec(s, e).0),
{
}

/// The start state of every run is valid.
pub proof fn lemma_initial_wf(options: Option<LoginOptions>)
    ensures
        flow_wf(initial_flow(options)),
{
}

/// Every run ends: each step either finishes the run or strictly lowers the
/// work left, which never goes below zero in a valid state.
pub proof fn lemma_step_makes_progress(s: LoginFlowView, e: LoginEventView)
    requires
        flow_wf(s),
        expects(s.stage, e),
    ensures
        remaining_work(s) >= 0,
        step_spec(s, e).0.stage == LoginStage::Finished || (0 <= remaining_work(step_spec(s, e).0)
            < remaining_work(s)),
{
}

/// The run ends exactly when it answers `Finish`; a finished run's response
/// reports success exactly when it carries no failure kind, never reports
/// an attempt beyond the configured maximum, and reports success only after
/// the connectivity probe that follows a synced login, whose outcome it
/// carries and which passed whenever the options require it.
pub proof fn lemma_finish_response(s: LoginFlowView, e: LoginEventView)
    requires
        flow_wf(s),
        expects(s.stage, e),
    ensures
        (step_spec(s, e).0.stage == LoginStage::Finished) <==> (step_spec(s, e).1 is Finish),
        match step_spec(s, e).1 {
            LoginActionView::Finish(Ok(r)) => {
                &&& (r.success <==> r.failure_kind is None)
                &&& r.attempt <= s.options.max_login_retries
                &&& r.success ==> s.stage == LoginStage::AwaitProbe
                &&& r.success ==> (e matches LoginEventView::ConnectivityProbed(Ok(p))
                    && r.probe_passed == p && (s.options.probe_required ==> p))
            },
            _ => true,
        },
{
}

/// Where the options require connectivity, the run probes it once the
/// session is set up, before the first captcha and so before any login is
/// submitted; a probe that fails ends the run with a connectivity failure
/// on attempt 0, and no login is ever submitted in such a run without a
/// passed probe.
pub proof fn lemma_pre_login_probe(s: LoginFlowView, e: LoginEventView)
    requires
        flow_wf(s),
        expects(s.stage, e),
        s.options.probe_required,
    ensures
        (s.stage == LoginStage::AwaitSession && e == LoginEventView::SessionInitialized(Ok(())))
            ==> step_spec(s, e) == (
            LoginFlowView { stage: LoginStage::AwaitPreProbe, ..s },
            LoginActionView::ProbeConnectivity {
                rounds: probe_rounds(),
                interval_ms: probe_interval_ms(),
            },
        ),
        (s.stage == LoginStage::AwaitPreProbe && e == LoginEventView::ConnectivityProbed(Ok(false)))
            ==> step_spec(s, e).1 == LoginActionView::Finish(
            Ok(
                failed_response_spec(
                    pre_login_probe_failed_message(),
                    Seq::empty(),
                    ConfidenceSource::Zero,
                    0,
                    false,
                    Some(LoginFailureKind::ConnectivityProbeFailed),
                ),
            ),
        ),
        step_spec(s, e).1 is FetchCaptcha ==> step_spec(s, e).0.pre_probe_passed,
        step_spec(s, e).1 is SubmitLogin ==> s.pre_probe_passed,
{
}

/// A submit answer that names invalid credentials or a locked account ends
/// the run at once, with that failure kind and the portal's message.
pub proof fn lemma_credential_failure_stops(
    s: LoginFlowView,
    sub: LoginSubmitResultView,
)
    requires
        flow_wf(s),
        s.stage == LoginStage::AwaitSubmit,
        !sub.success,
        sub.message is Some,
        is_credential_failure(sub.failure_kind),
    ensures
        step_spec(s, LoginEventView::LoginSubmitted(Ok(sub))).1 == LoginActionView::Finish(
            Ok(
                failed_response_spec(
                    sub.message->0,
                    s.last_captcha_text,
                    ConfidenceSource::LastRecognition,
                    s.attempt,
                    false,
                    sub.failure_kind,
                ),
            ),
        ),
{
}

/// Every captcha fetch opens a new attempt, numbered one more than the
/// last and never beyond the configured maximum, so a run fetches at most
/// that many captchas; a pause comes only between attempts, never after the
/// last one, and lasts as `retry_backoff_ms` says for the attempt just
/// ended; every attempt but the first begins only after such a pause, so an
/// attempt that ends with an empty captcha text or a refused login and is
/// not the last is always followed by one; a login is submitted only with
/// the text just recognized.
pub proof fn lemma_attempt_accounting(s: LoginFlowView, e: LoginEventView)
    requires
        flow_wf(s),
        expects(s.stage, e),
    ensures
        step_spec(s, e).1 is FetchCaptcha ==> step_spec(s, e).0.attempt == s.attempt + 1
            && step_spec(s, e).0.attempt <= s.options.max_login_retries,
        step_spec(s, e).1 matches LoginActionView::Sleep(ms) ==> ms == retry_backoff_ms(s.attempt)
            && s.attempt < s.options.max_login_retries,
        step_spec(s, e).1 is FetchCaptcha ==> (e is BackoffElapsed || s.stage
            == LoginStage::AwaitSession || s.stage == LoginStage::AwaitPreProbe),
        (e matches LoginEventView::CaptchaRecognized(Ok(text)) && text.len() == 0
            && s.attempt < s.options.max_login_retries) ==> step_spec(s, e).1
            == LoginActionView::Sleep(retry_backoff_ms(s.attempt)),
        (e matches LoginEventView::LoginSubmitted(Ok(sub)) && !sub.success
            && !(sub.message is Some && is_credential_failure(sub.failure_kind))
            && s.attempt < s.options.max_login_retries) ==> step_spec(s, e).1
            == LoginActionView::Sleep(retry_backoff_ms(s.attempt)),
        step_spec(s, e).1 matches LoginActionView::SubmitLogin(code) ==> e
            == LoginEventView::CaptchaRecognized(Ok(code)) && code.len() > 0,
        !(step_spec(s, e).1 is FetchCaptcha) && !(step_spec(s, e).1 is Finish) ==> step_spec(
            s,
            e,
        ).0.attempt == s.attempt,
{
}

/// The event that reports the outcome of the work `a` asks for.
pub open spec fn answers(a: LoginActionView, e: LoginEventView) -> bool {
    match a {
        LoginActionView::InitSession => e is SessionInitialized,
        LoginActionView::FetchCaptcha => e is CaptchaFetched,
        LoginActionView::RecognizeCaptcha => e is CaptchaRecognized,
        LoginActionView::SubmitLogin(_) => e is LoginSubmitted,
        LoginActionView::PostLoginSync => e is PostLoginSynced,
        LoginActionView::ProbeConnectivity { .. } => e is ConnectivityProbed,
        LoginActionView::Sleep(_) => e is BackoffElapsed,
        LoginActionView::Finish(_) => false,
    }
}

/// A run never stalls: whatever work it asks for, at its start or after a
/// step, any outcome of that work is an event the run then expects; in
/// particular, once a pause is asked for, the end of the pause is expected,
/// and the run goes on.
pub proof fn lemma_actions_are_answered(
    options: Option<LoginOptions>,
    s: LoginFlowView,
    e: LoginEventView,
    reply: LoginEventView,
)
    ensures
        answers(LoginActionView::InitSession, reply) ==> expects(initial_flow(options).stage, reply),
        (flow_wf(s) && expects(s.stage, e) && answers(step_spec(s, e).1, reply)) ==> expects(
            step_spec(s, e).0.stage,
            reply,
        ),
        (flow_wf(s) && expects(s.stage, e) && step_spec(s, e).1 is Sleep) ==> expects(
            step_spec(s, e).0.stage,
            LoginEventView::BackoffElapsed,
        ),
        (flow_wf(s) && expects(s.stage, e) && !(step_spec(s, e).1 is Finish)) ==> exists|
            r: LoginEventView,
        | #[trigger] answers(step_spec(s, e).1, r),
{
    if flow_wf(s) && expects(s.stage, e) && !(step_spec(s, e).1 is Finish) {
        let a = step_spec(s, e).1;
        match a {
            LoginActionView::InitSession => {
                assert(answers(a, LoginEventView::SessionInitialized(Ok(()))));
            },
            LoginActionView::FetchCaptcha => {
                assert(answers(a, LoginEventView::CaptchaFetched(Ok(()))));
            },
            LoginActionView::RecognizeCaptcha => {
                assert(answers(a, LoginEventView::CaptchaRecognized(Ok(Seq::empty()))));
            },
            LoginActionView::SubmitLogin(_) => {
                assert(answers(a, LoginEventView::LoginSubmitted(Err(Seq::empty()))));
            },
            LoginActionView::PostLoginSync => {
                assert(answers(a, LoginEventView::PostLoginSynced(Ok(()))));
            },
            LoginActionView::ProbeConnectivity { .. } => {
                assert(answers(a, LoginEventView::ConnectivityProbed(Ok(true))));
            },
            LoginActionView::Sleep(_) => {
                assert(answers(a, LoginEventView::BackoffElapsed));
            },
            LoginActionView::Finish(_) => {},
        }
    }
}

} // verus!
