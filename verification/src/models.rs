//! Data exchanged between the login flow, the configuration store and the
//! front ends.
use vstd::prelude::*;

verus! {

/// An account and its plain-text password.
#[derive(Debug)]
pub struct SavedCredentials {
    pub account: String,
    pub password: String,
}

/// The account and password of a `SavedCredentials`, as character sequences.
pub struct SavedCredentialsView {
    pub account: Seq<char>,
    pub password: Seq<char>,
}

impl View for SavedCredentials {
    type V = SavedCredentialsView;

    open spec fn view(&self) -> SavedCredentialsView {
        SavedCredentialsView { account: self.account@, password: self.password@ }
    }
}

/// Settings of one login run.
#[derive(Clone, Copy, Debug, PartialEq, Eq, Structural)]
pub struct LoginOptions {
    pub max_login_retries: u32,
    pub probe_required: bool,
    pub timeout_secs: u64,
}

/// The settings used when none were saved: five attempts, no connectivity
/// requirement, ten seconds of timeout.
pub open spec fn default_login_options() -> LoginOptions {
    LoginOptions { max_login_retries: 5, probe_required: false, timeout_secs: 10 }
}

impl Default for LoginOptions {
    fn default() -> (r: Self)
        ensures
            r == default_login_options(),
    {
        LoginOptions { max_login_retries: 5, probe_required: false, timeout_secs: 10 }
    }
}

/// Why a login run did not succeed.
#[derive(Clone, Copy, Debug, PartialEq, Eq, Structural)]
pub enum LoginFailureKind {
    InvalidCredentials,
    InvalidCredentialsOrLocked,
    AccountLocked,
    ConnectivityProbeFailed,
    NetworkUnavailable,
    PortalPageUnreachable,
    MaxRetriesExceeded,
    Unknown,
}

/// Which recognition confidence a response reports: zero, or the confidence
/// of the most recent captcha recognition of the run (the front end holds
/// that number).
#[derive(Clone, Copy, Debug, PartialEq, Eq, Structural)]
pub enum ConfidenceSource {
    Zero,
    LastRecognition,
}

/// The outcome of a login run.
#[derive(Debug)]
pub struct LoginResponse {
    pub success: bool,
    pub message: String,
    pub captcha_text: String,
    pub confidence: ConfidenceSource,
    pub attempt: u32,
    pub probe_passed: bool,
    pub failure_kind: Option<LoginFailureKind>,
}

/// A `LoginResponse` with its strings as character sequences.
#[verifier::ext_equal]
pub struct LoginResponseView {
    pub success: bool,
    pub message: Seq<char>,
    pub captcha_text: Seq<char>,
    pub confidence: ConfidenceSource,
    pub attempt: u32,
    pub probe_passed: bool,
    pub failure_kind: Option<LoginFailureKind>,
}

impl View for LoginResponse {
    type V = LoginResponseView;

    open spec fn view(&self) -> LoginResponseView {
        LoginResponseView {
            success: self.success,
            message: self.message@,
            captcha_text: self.captcha_text@,
            confidence: self.confidence,
            attempt: self.attempt,
            probe_passed: self.probe_passed,
            failure_kind: self.failure_kind,
        }
    }
}

} // verus!
