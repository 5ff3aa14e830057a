use ezlogin::cli::{
    apply_option_overrides, login_outcome, merge_credentials, plan_set, resolve_auth, resolve_options,
    AuthStep, LoginArgs, LoginOutcome, SetArgs,
};
use ezlogin::models::{ConfidenceSource, LoginFailureKind, LoginOptions, LoginResponse, SavedCredentials};

fn saved(a: &str, p: &str) -> Option<SavedCredentials> {
    Some(SavedCredentials { account: a.to_string(), password: p.to_string() })
}

#[test]
fn options_resolution() {
    let args = LoginArgs::default();
    assert!(args.use_saved && !args.save_after_login);
    assert_eq!(resolve_options(None, &args), LoginOptions::default());
    let args = LoginArgs { retries: Some(0), timeout: Some(0), probe_required: Some(true), ..LoginArgs::default() };
    assert_eq!(resolve_options(None, &args), LoginOptions { max_login_retries: 1, probe_required: true, timeout_secs: 1 });
    let base = LoginOptions { max_login_retries: 7, probe_required: true, timeout_secs: 30 };
    assert_eq!(resolve_options(Some(base), &LoginArgs::default()), base);
    assert_eq!(apply_option_overrides(base, Some(9), None, Some(false)), LoginOptions { max_login_retries: 9, probe_required: false, timeout_secs: 30 });
}

#[test]
fn credentials_resolution() {
    let both = LoginArgs { account: Some("a".into()), password: Some("p".into()), ..LoginArgs::default() };
    assert!(matches!(resolve_auth(&both, None, None), AuthStep::Resolved(a, p) if a == "a" && p == "p"));

    let none = LoginArgs::default();
    assert!(matches!(resolve_auth(&none, None, None), AuthStep::LoadSaved));
    assert!(matches!(resolve_auth(&none, Some(&saved("s", "sp")), None), AuthStep::Resolved(a, p) if a == "s" && p == "sp"));
    assert!(matches!(resolve_auth(&none, Some(&None), None), AuthStep::Missing(_)));

    let acct = LoginArgs { account: Some("x".into()), ..LoginArgs::default() };
    assert!(matches!(resolve_auth(&acct, Some(&saved("s", "sp")), None), AuthStep::Resolved(a, p) if a == "x" && p == "sp"));
    assert!(matches!(resolve_auth(&acct, Some(&saved("s", "")), None), AuthStep::PromptPassword(a) if a == "x"));
    let typed = "typed".to_string();
    assert!(matches!(resolve_auth(&acct, Some(&None), Some(&typed)), AuthStep::Resolved(a, p) if a == "x" && p == "typed"));
    let empty = String::new();
    match resolve_auth(&acct, Some(&None), Some(&empty)) {
        AuthStep::Missing(m) => assert_eq!(m, "缺少登录账号或密码，请使用 --account/--password，或先执行 init 保存凭据"),
        other => panic!("{:?}", other),
    }

    let no_saved = LoginArgs { account: Some("x".into()), use_saved: false, ..LoginArgs::default() };
    assert!(matches!(resolve_auth(&no_saved, None, None), AuthStep::PromptPassword(_)));
}

#[test]
fn set_command_decisions() {
    let nothing = SetArgs { account: None, password: None, retries: None, timeout: None, probe_required: None };
    assert_eq!(plan_set(&nothing).unwrap_err(), "未提供可更新项，请至少指定 --account/--password/--retries/--timeout/--probe-required");
    let pw = SetArgs { password: Some("n".into()), ..nothing };
    let plan = plan_set(&pw).unwrap();
    assert!(plan.update_credentials && !plan.update_options);
    assert_eq!(merge_credentials(&pw, saved("a", "o").as_ref()).unwrap(), ("a".to_string(), "n".to_string()));
    assert_eq!(
        merge_credentials(&pw, None).unwrap_err(),
        "更新账号或密码时需保证账号和密码都存在，可先使用 init 初始化"
    );
    let opts = SetArgs { account: None, password: None, retries: Some(3), timeout: None, probe_required: None };
    let plan = plan_set(&opts).unwrap();
    assert!(!plan.update_credentials && plan.update_options);
}

fn response(success: bool) -> LoginResponse {
    LoginResponse {
        success,
        message: String::new(),
        captcha_text: String::new(),
        confidence: ConfidenceSource::Zero,
        attempt: 1,
        probe_passed: success,
        failure_kind: if success { None } else { Some(LoginFailureKind::Unknown) },
    }
}

#[test]
fn login_exit_and_saving() {
    assert_eq!(login_outcome(&response(true), true), LoginOutcome { exit_code: 0, save_credentials: true });
    assert_eq!(login_outcome(&response(true), false), LoginOutcome { exit_code: 0, save_credentials: false });
    assert_eq!(login_outcome(&response(false), true), LoginOutcome { exit_code: 2, save_credentials: false });
    assert_eq!(login_outcome(&response(false), false), LoginOutcome { exit_code: 2, save_credentials: false });
}
