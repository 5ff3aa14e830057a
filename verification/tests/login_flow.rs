use ezlogin::login::{
    backoff_after, classify_transport_failure, failed_response, transport_failure_response, LoginAction,
    LoginEvent, LoginFlow,
};
use ezlogin::models::{ConfidenceSource, LoginFailureKind, LoginOptions};
use ezlogin::portal::LoginSubmitResult;

fn opts(max: u32, probe_required: bool) -> Option<LoginOptions> {
    Some(LoginOptions { max_login_retries: max, probe_required, timeout_secs: 10 })
}

fn submit(success: bool, message: Option<&str>, kind: Option<LoginFailureKind>) -> LoginEvent {
    LoginEvent::LoginSubmitted(Ok(LoginSubmitResult {
        success,
        message: message.map(|m| m.to_string()),
        failure_kind: kind,
    }))
}

fn finished(a: LoginAction) -> ezlogin::models::LoginResponse {
    match a {
        LoginAction::Finish(Ok(r)) => r,
        other => panic!("expected a response, got {:?}", other),
    }
}

#[test]
fn classify_network_unavailable() {
    let (k, m) = classify_transport_failure("error sending request: Network is unreachable (os error 101)");
    assert_eq!(k, LoginFailureKind::NetworkUnavailable);
    assert_eq!(m, "当前网络不可用，请检查网络连接后重试");
    let (k, _) = classify_transport_failure("DNS Error: failed");
    assert_eq!(k, LoginFailureKind::NetworkUnavailable);
}

#[test]
fn classify_portal_unreachable() {
    let (k, m) = classify_transport_failure("operation Timed Out");
    assert_eq!(k, LoginFailureKind::PortalPageUnreachable);
    assert_eq!(m, "认证网页暂时无法访问，请确认校园网环境或稍后重试");
    let (k, _) = classify_transport_failure("http request failed: x; endpoint=https://h/p");
    assert_eq!(k, LoginFailureKind::PortalPageUnreachable);
}

#[test]
fn classify_unknown_keeps_raw_text() {
    let (k, m) = classify_transport_failure("Boom");
    assert_eq!(k, LoginFailureKind::Unknown);
    assert_eq!(m, "网络请求失败: Boom");
}

#[test]
fn network_takes_precedence_over_portal() {
    let (k, _) = classify_transport_failure("no route to host; endpoint=https://x");
    assert_eq!(k, LoginFailureKind::NetworkUnavailable);
}

#[test]
fn transport_failure_response_fields() {
    let r = transport_failure_response("connection refused", 3, "ab12".to_string(), ConfidenceSource::LastRecognition);
    assert!(!r.success);
    assert_eq!(r.attempt, 3);
    assert_eq!(r.captcha_text, "ab12");
    assert_eq!(r.failure_kind, Some(LoginFailureKind::PortalPageUnreachable));
    assert!(!r.probe_passed);
    let f = failed_response("m".to_string(), "c".to_string(), ConfidenceSource::Zero, 2, true, None);
    assert!(!f.success && f.probe_passed && f.attempt == 2 && f.message == "m");
}

#[test]
fn default_options_when_none_given() {
    let (flow, a) = LoginFlow::start(None);
    assert!(matches!(a, LoginAction::InitSession));
    assert_eq!(flow.options, LoginOptions { max_login_retries: 5, probe_required: false, timeout_secs: 10 });
    assert_eq!(LoginOptions::default(), flow.options);
}

#[test]
fn successful_run() {
    let (mut f, _) = LoginFlow::start(opts(3, true));
    match f.step(LoginEvent::SessionInitialized(Ok(()))) {
        LoginAction::ProbeConnectivity { rounds, interval_ms } => {
            assert_eq!((rounds, interval_ms), (3, 1200));
        }
        other => panic!("{:?}", other),
    }
    assert!(f.expects(&LoginEvent::ConnectivityProbed(Ok(true))));
    assert!(matches!(f.step(LoginEvent::ConnectivityProbed(Ok(true))), LoginAction::FetchCaptcha));
    assert!(f.pre_probe_passed);
    assert!(matches!(f.step(LoginEvent::CaptchaFetched(Ok(()))), LoginAction::RecognizeCaptcha));
    match f.step(LoginEvent::CaptchaRecognized(Ok("b5BH".to_string()))) {
        LoginAction::SubmitLogin(code) => assert_eq!(code, "b5BH"),
        other => panic!("{:?}", other),
    }
    assert!(matches!(f.step(submit(true, None, None)), LoginAction::PostLoginSync));
    match f.step(LoginEvent::PostLoginSynced(Ok(()))) {
        LoginAction::ProbeConnectivity { rounds, interval_ms } => {
            assert_eq!((rounds, interval_ms), (3, 1200));
        }
        other => panic!("{:?}", other),
    }
    let r = finished(f.step(LoginEvent::ConnectivityProbed(Ok(true))));
    assert!(r.success);
    assert_eq!(r.message, "登录成功");
    assert_eq!(r.captcha_text, "b5BH");
    assert_eq!(r.attempt, 1);
    assert!(r.probe_passed);
    assert_eq!(r.failure_kind, None);
    assert_eq!(r.confidence, ConfidenceSource::LastRecognition);
}

#[test]
fn probe_failure_is_tolerated_unless_required() {
    let (mut f, _) = LoginFlow::start(opts(1, false));
    f.step(LoginEvent::SessionInitialized(Ok(())));
    f.step(LoginEvent::CaptchaFetched(Ok(())));
    f.step(LoginEvent::CaptchaRecognized(Ok("abcd".to_string())));
    f.step(submit(true, None, None));
    f.step(LoginEvent::PostLoginSynced(Ok(())));
    let r = finished(f.step(LoginEvent::ConnectivityProbed(Ok(false))));
    assert!(r.success && !r.probe_passed);

    let (mut f, _) = LoginFlow::start(opts(1, true));
    f.step(LoginEvent::SessionInitialized(Ok(())));
    f.step(LoginEvent::ConnectivityProbed(Ok(true)));
    f.step(LoginEvent::CaptchaFetched(Ok(())));
    f.step(LoginEvent::CaptchaRecognized(Ok("abcd".to_string())));
    f.step(submit(true, None, None));
    f.step(LoginEvent::PostLoginSynced(Ok(())));
    let r = finished(f.step(LoginEvent::ConnectivityProbed(Ok(false))));
    assert!(!r.success);
    assert_eq!(r.message, "登录成功但连通性检测失败");
    assert_eq!(r.failure_kind, Some(LoginFailureKind::ConnectivityProbeFailed));
}

#[test]
fn invalid_credentials_stop_at_once() {
    let (mut f, _) = LoginFlow::start(opts(5, false));
    f.step(LoginEvent::SessionInitialized(Ok(())));
    f.step(LoginEvent::CaptchaFetched(Ok(())));
    f.step(LoginEvent::CaptchaRecognized(Ok("abcd".to_string())));
    let r = finished(f.step(submit(false, Some("密码错误"), Some(LoginFailureKind::InvalidCredentials))));
    assert!(!r.success);
    assert_eq!(r.message, "密码错误");
    assert_eq!(r.attempt, 1);
    assert_eq!(r.failure_kind, Some(LoginFailureKind::InvalidCredentials));
}

#[test]
fn retries_then_gives_up_with_last_message() {
    let (mut f, _) = LoginFlow::start(opts(2, false));
    f.step(LoginEvent::SessionInitialized(Ok(())));
    f.step(LoginEvent::CaptchaFetched(Ok(())));
    f.step(LoginEvent::CaptchaRecognized(Ok("aaaa".to_string())));
    match f.step(submit(false, Some("验证码错误"), None)) {
        LoginAction::Sleep(ms) => assert_eq!(ms, 500),
        other => panic!("{:?}", other),
    }
    assert!(matches!(f.step(LoginEvent::BackoffElapsed), LoginAction::FetchCaptcha));
    assert_eq!(f.attempt, 2);
    f.step(LoginEvent::CaptchaFetched(Ok(())));
    f.step(LoginEvent::CaptchaRecognized(Ok("bbbb".to_string())));
    let r = finished(f.step(submit(false, None, None)));
    assert!(!r.success);
    assert_eq!(r.message, "验证码错误");
    assert_eq!(r.captcha_text, "bbbb");
    assert_eq!(r.attempt, 2);
    assert_eq!(r.failure_kind, Some(LoginFailureKind::MaxRetriesExceeded));
}

#[test]
fn gives_up_with_default_message() {
    let (mut f, _) = LoginFlow::start(opts(1, false));
    f.step(LoginEvent::SessionInitialized(Ok(())));
    f.step(LoginEvent::CaptchaFetched(Ok(())));
    f.step(LoginEvent::CaptchaRecognized(Ok("aaaa".to_string())));
    let r = finished(f.step(submit(false, None, None)));
    assert_eq!(r.message, "登录失败，已达到最大重试次数");
    assert_eq!(r.failure_kind, Some(LoginFailureKind::MaxRetriesExceeded));
    assert_eq!(r.confidence, ConfidenceSource::LastRecognition);
}

#[test]
fn empty_recognition_retries_after_pause() {
    let (mut f, _) = LoginFlow::start(opts(2, false));
    f.step(LoginEvent::SessionInitialized(Ok(())));
    f.step(LoginEvent::CaptchaFetched(Ok(())));
    match f.step(LoginEvent::CaptchaRecognized(Ok(String::new()))) {
        LoginAction::Sleep(ms) => assert_eq!(ms, 500),
        other => panic!("{:?}", other),
    }
    assert!(matches!(f.step(LoginEvent::BackoffElapsed), LoginAction::FetchCaptcha));
    assert_eq!(f.attempt, 2);
    f.step(LoginEvent::CaptchaFetched(Ok(())));
    let r = finished(f.step(LoginEvent::CaptchaRecognized(Ok(String::new()))));
    assert_eq!(r.attempt, 2);
    assert_eq!(r.captcha_text, "");
    assert_eq!(r.failure_kind, Some(LoginFailureKind::MaxRetriesExceeded));
}

#[test]
fn zero_retries_ends_after_session() {
    let (mut f, _) = LoginFlow::start(opts(0, false));
    let r = finished(f.step(LoginEvent::SessionInitialized(Ok(()))));
    assert_eq!(r.attempt, 0);
    assert_eq!(r.confidence, ConfidenceSource::Zero);
    assert_eq!(r.failure_kind, Some(LoginFailureKind::MaxRetriesExceeded));
}

#[test]
fn transport_failures_end_the_run() {
    let (mut f, _) = LoginFlow::start(None);
    let r = finished(f.step(LoginEvent::SessionInitialized(Err("connection refused".to_string()))));
    assert_eq!(r.attempt, 0);
    assert_eq!(r.failure_kind, Some(LoginFailureKind::PortalPageUnreachable));

    let (mut f, _) = LoginFlow::start(None);
    f.step(LoginEvent::SessionInitialized(Ok(())));
    let r = finished(f.step(LoginEvent::CaptchaFetched(Err("x".to_string()))));
    assert_eq!(r.attempt, 1);
    assert_eq!(r.confidence, ConfidenceSource::Zero);
    assert_eq!(r.message, "网络请求失败: x");

    let (mut f, _) = LoginFlow::start(None);
    f.step(LoginEvent::SessionInitialized(Ok(())));
    f.step(LoginEvent::CaptchaFetched(Ok(())));
    f.step(LoginEvent::CaptchaRecognized(Ok("abcd".to_string())));
    f.step(submit(true, None, None));
    let r = finished(f.step(LoginEvent::PostLoginSynced(Err("y".to_string()))));
    assert_eq!(r.message, "网络请求失败: post login sync failed: y");
    assert_eq!(r.captcha_text, "abcd");
}

#[test]
fn recognition_error_is_an_error() {
    let (mut f, _) = LoginFlow::start(None);
    f.step(LoginEvent::SessionInitialized(Ok(())));
    f.step(LoginEvent::CaptchaFetched(Ok(())));
    match f.step(LoginEvent::CaptchaRecognized(Err("bad image".to_string()))) {
        LoginAction::Finish(Err(e)) => assert_eq!(e, "captcha OCR failed: bad image"),
        other => panic!("{:?}", other),
    }
    assert!(!f.expects(&LoginEvent::BackoffElapsed));
}

#[test]
fn no_pre_login_probe_unless_required() {
    let (mut f, _) = LoginFlow::start(opts(3, false));
    assert!(matches!(f.step(LoginEvent::SessionInitialized(Ok(()))), LoginAction::FetchCaptcha));
    assert!(!f.pre_probe_passed);
}

#[test]
fn failed_pre_login_probe_stops_before_any_attempt() {
    let (mut f, _) = LoginFlow::start(opts(3, true));
    f.step(LoginEvent::SessionInitialized(Ok(())));
    let r = finished(f.step(LoginEvent::ConnectivityProbed(Ok(false))));
    assert!(!r.success);
    assert_eq!(r.message, "登录前连通性检测失败");
    assert_eq!(r.attempt, 0);
    assert_eq!(r.captcha_text, "");
    assert_eq!(r.confidence, ConfidenceSource::Zero);
    assert!(!r.probe_passed);
    assert_eq!(r.failure_kind, Some(LoginFailureKind::ConnectivityProbeFailed));
    assert!(!f.expects(&LoginEvent::CaptchaFetched(Ok(()))));
}

#[test]
fn pre_login_probe_error_is_a_transport_failure() {
    let (mut f, _) = LoginFlow::start(opts(3, true));
    f.step(LoginEvent::SessionInitialized(Ok(())));
    let r = finished(f.step(LoginEvent::ConnectivityProbed(Err("DNS error".to_string()))));
    assert!(!r.success);
    assert_eq!(r.attempt, 0);
    assert_eq!(r.failure_kind, Some(LoginFailureKind::NetworkUnavailable));
    assert_eq!(r.message, "当前网络不可用，请检查网络连接后重试");
}

#[test]
fn pauses_double_up_to_four_seconds() {
    assert_eq!(
        (1..=6).map(backoff_after).collect::<Vec<u64>>(),
        vec![500, 1000, 2000, 4000, 4000, 4000]
    );
    let (mut f, _) = LoginFlow::start(opts(5, false));
    f.step(LoginEvent::SessionInitialized(Ok(())));
    let mut pauses = Vec::new();
    for k in 1..=5u32 {
        assert_eq!(f.attempt, k);
        f.step(LoginEvent::CaptchaFetched(Ok(())));
        f.step(LoginEvent::CaptchaRecognized(Ok("abcd".to_string())));
        match f.step(submit(false, Some("验证码错误"), None)) {
            LoginAction::Sleep(ms) => {
                pauses.push(ms);
                assert!(matches!(f.step(LoginEvent::BackoffElapsed), LoginAction::FetchCaptcha));
            }
            LoginAction::Finish(Ok(r)) => {
                assert_eq!(k, 5);
                assert_eq!(r.failure_kind, Some(LoginFailureKind::MaxRetriesExceeded));
            }
            other => panic!("{:?}", other),
        }
    }
    assert_eq!(pauses, vec![500, 1000, 2000, 4000]);
}
