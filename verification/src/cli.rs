//! The decisions of the command-line front end: which credentials and
//! options a login uses, and what the `set` command changes.
use vstd::prelude::*;

use crate::models::{
    default_login_options, LoginOptions, LoginResponse, SavedCredentials, SavedCredentialsView,
};
use crate::portal::opt_string_view;

verus! {

/// The arguments of the `login` command.
#[derive(Debug)]
pub struct LoginArgs {
    pub account: Option<String>,
    pub password: Option<String>,
    pub retries: Option<u32>,
    pub timeout: Option<u64>,
    pub probe_required: Option<bool>,
    pub use_saved: bool,
    pub save_after_login: bool,
}

pub struct LoginArgsView {
    pub account: Option<Seq<char>>,
    pub password: Option<Seq<char>>,
    pub retries: Option<u32>,
    pub timeout: Option<u64>,
    pub probe_required: Option<bool>,
    pub use_saved: bool,
    pub save_after_login: bool,
}

impl View for LoginArgs {
    type V = LoginArgsView;

    open spec fn view(&self) -> LoginArgsView {
        LoginArgsView {
            account: opt_string_view(self.account),
            password: opt_string_view(self.password),
            retries: self.retries,
            timeout: self.timeout,
            probe_required: self.probe_required,
            use_saved: self.use_saved,
            save_after_login: self.save_after_login,
        }
    }
}

impl Default for LoginArgs {
    /// A login with nothing given: saved credentials are used, and nothing
    /// is saved afterwards.
    fn default() -> (r: Self)
        ensures
            r.account is None,
            r.password is None,
            r.retries is None,
            r.timeout is None,
            r.probe_required is None,
            r.use_saved,
            !r.save_after_login,
    {
        LoginArgs {
            account: None,
            password: None,
            retries: None,
            timeout: None,
            probe_required: None,
            use_saved: true,
            save_after_login: false,
        }
    }
}

// ---------------------------------------------------------------------------
// Options.
// ---------------------------------------------------------------------------

/// `base` with the given settings in its place; retries and timeout are at
/// least 1.
pub open spec fn apply_overrides(
    base: LoginOptions,
    retries: Option<u32>,
    timeout: Option<u64>,
    probe_required: Option<bool>,
) -> LoginOptions {
    LoginOptions {
        max_login_retries: match retries {
            Some(r) => if r < 1 {
                1
            } else {
                r
            },
            None => base.max_login_retries,
        },
        probe_required: match probe_required {
            Some(p) => p,
            None => base.probe_required,
        },
        timeout_secs: match timeout {
            Some(t) => if t < 1 {
                1
            } else {
                t
            },
            None => base.timeout_secs,
        },
    }
}

/// Puts the given settings in place of those of `base`; retries and
/// timeout are raised to at least 1.
pub fn apply_option_overrides(
    base: LoginOptions,
    retries: Option<u32>,
    timeout: Option<u64>,
    probe_required: Option<bool>,
) -> (r: LoginOptions)
    ensures
        r == apply_overrides(base, retries, timeout, probe_required),
{
    let mut options = base;
    if let Some(r) = retries {
        options.max_login_retries = if r < 1 {
            1
        } else {
            r
        };
    }
    if let Some(t) = timeout {
        options.timeout_secs = if t < 1 {
            1
        } else {
            t
        };
    }
    if let Some(p) = probe_required {
        options.probe_required = p;
    }
    options
}

/// The options of a login: the saved ones (the defaults when none are
/// saved) with the command's settings in their place.
pub fn resolve_options(saved: Option<LoginOptions>, args: &LoginArgs) -> (r: LoginOptions)
    ensures
        r == apply_overrides(
            match saved {
                Some(o) => o,
                None => default_login_options(),
            },
            args.retries,
            args.timeout,
            args.probe_required,
        ),
{
    let base = match saved {
        Some(o) => o,
        None => LoginOptions::default(),
    };
    apply_option_overrides(base, args.retries, args.timeout, args.probe_required)
}

// ---------------------------------------------------------------------------
// Credentials of a login.
// ---------------------------------------------------------------------------

/// What resolving the credentials of a login needs next, or its answer.
#[derive(Debug)]
pub enum AuthStep {
    /// The account and password to use.
    Resolved(String, String),
    /// The saved credentials are needed.
    LoadSaved,
    /// The password of this account is to be asked for.
    PromptPassword(String),
    /// No credentials can be had; the message says what to do.
    Missing(String),
}

pub enum AuthStepView {
    Resolved(Seq<char>, Seq<char>),
    LoadSaved,
    PromptPassword(Seq<char>),
    Missing(Seq<char>),
}

impl View for AuthStep {
    type V = AuthStepView;

    open spec fn view(&self) -> AuthStepView {
        match self {
            AuthStep::Resolved(a, p) => AuthStepView::Resolved(a@, p@),
            AuthStep::LoadSaved => AuthStepView::LoadSaved,
            AuthStep::PromptPassword(a) => AuthStepView::PromptPassword(a@),
            AuthStep::Missing(m) => AuthStepView::Missing(m@),
        }
    }
}

pub open spec fn missing_credentials_message() -> Seq<char> {
    "缺少登录账号或密码，请使用 --account/--password，或先执行 init 保存凭据"@
}

/// The given value, else the saved one.
pub open spec fn given_or(given: Option<Seq<char>>, saved: Seq<char>) -> Seq<char> {
    match given {
        Some(g) => g,
        None => saved,
    }
}

/// Resolving the credentials of a login, given what is known so far: the
/// saved credentials once loaded (`None` before), and the password typed
/// once asked for (`None` before).  Both given on the command line win;
/// else saved credentials, with what was given in place of their parts,
/// when `use_saved` and neither part is empty; else the given account with
/// a typed, non-empty password.
pub open spec fn resolve_auth_spec(
    args: LoginArgsView,
    saved: Option<Option<SavedCredentialsView>>,
    prompted: Option<Seq<char>>,
) -> AuthStepView {
    if args.account is Some && args.password is Some {
        AuthStepView::Resolved(args.account->0, args.password->0)
    } else if args.use_saved && saved is None {
        AuthStepView::LoadSaved
    } else if args.use_saved && (saved matches Some(Some(s)) && given_or(args.account, s.account).len()
        > 0 && given_or(args.password, s.password).len() > 0) {
        AuthStepView::Resolved(
            given_or(args.account, saved->0->0.account),
            given_or(args.password, saved->0->0.password),
        )
    } else {
        match args.account {
            Some(a) => match prompted {
                None => AuthStepView::PromptPassword(a),
                Some(p) => if p.len() > 0 {
                    AuthStepView::Resolved(a, p)
                } else {
                    AuthStepView::Missing(missing_credentials_message())
                },
            },
            None => AuthStepView::Missing(missing_credentials_message()),
        }
    }
}

pub open spec fn saved_view(saved: Option<&Option<SavedCredentials>>) -> Option<
    Option<SavedCredentialsView>,
> {
    match saved {
        Some(Some(s)) => Some(Some(s@)),
        Some(None) => Some(None),
        None => None,
    }
}

pub open spec fn prompted_view(prompted: Option<&String>) -> Option<Seq<char>> {
    match prompted {
        Some(p) => Some(p@),
        None => None,
    }
}

fn given_or_exec(given: &Option<String>, saved: &String) -> (r: String)
    ensures
        r@ == given_or(opt_string_view(*given), saved@),
{
    match given {
        Some(g) => g.clone(),
        None => saved.clone(),
    }
}

/// Decides, from what is known so far, the credentials of a login or what
/// to find out next.
pub fn resolve_auth(
    args: &LoginArgs,
    saved: Option<&Option<SavedCredentials>>,
    prompted: Option<&String>,
) -> (r: AuthStep)
    ensures
        r@ == resolve_auth_spec(args@, saved_view(saved), prompted_view(prompted)),
{
    if let (Some(a), Some(p)) = (&args.account, &args.password) {
        return AuthStep::Resolved(a.clone(), p.clone());
    }
    if args.use_saved {
        match saved {
            None => {
                return AuthStep::LoadSaved;
            },
            Some(Some(s)) => {
                let account = given_or_exec(&args.account, &s.account);
                let password = given_or_exec(&args.password, &s.password);
                if !account.as_str().is_empty() && !password.as_str().is_empty() {
                    return AuthStep::Resolved(account, password);
                }
            },
            Some(None) => {},
        }
    }
    match &args.account {
        Some(a) => match prompted {
            None => AuthStep::PromptPassword(a.clone()),
            Some(p) => if !p.as_str().is_empty() {
                AuthStep::Resolved(a.clone(), p.clone())
            } else {
                AuthStep::Missing(
                    String::from_str(
                        "缺少登录账号或密码，请使用 --account/--password，或先执行 init 保存凭据",
                    ),
                )
            },
        },
        None => AuthStep::Missing(
            String::from_str(
                "缺少登录账号或密码，请使用 --account/--password，或先执行 init 保存凭据",
            ),
        ),
    }
}

// ---------------------------------------------------------------------------
// The `set` command.
// ---------------------------------------------------------------------------

/// The arguments of the `set` command.
#[derive(Debug)]
pub struct SetArgs {
    pub account: Option<String>,
    pub password: Option<String>,
    pub retries: Option<u32>,
    pub timeout: Option<u64>,
    pub probe_required: Option<bool>,
}

/// The command changes the saved credentials.
pub open spec fn set_touches_credentials(args: SetArgs) -> bool {
    args.account is Some || args.password is Some
}

/// The command changes the saved login options.
pub open spec fn set_touches_options(args: SetArgs) -> bool {
    args.retries is Some || args.timeout is Some || args.probe_required is Some
}

pub open spec fn nothing_to_set_message() -> Seq<char> {
    "未提供可更新项，请至少指定 --account/--password/--retries/--timeout/--probe-required"@
}

pub open spec fn incomplete_credentials_message() -> Seq<char> {
    "更新账号或密码时需保证账号和密码都存在，可先使用 init 初始化"@
}

/// What the `set` command does.
#[derive(Debug)]
pub struct SetPlan {
    pub update_credentials: bool,
    pub update_options: bool,
}

/// Decides what the `set` command changes; an error when it is given
/// nothing to change.
pub fn plan_set(args: &SetArgs) -> (r: Result<SetPlan, String>)
    ensures
        match r {
            Ok(p) => {
                &&& set_touches_credentials(*args) || set_touches_options(*args)
                &&& p.update_credentials == set_touches_credentials(*args)
                &&& p.update_options == set_touches_options(*args)
            },
            Err(e) => {
                &&& !set_touches_credentials(*args) && !set_touches_options(*args)
                &&& e@ == nothing_to_set_message()
            },
        },
{
    let update_credentials = args.account.is_some() || args.password.is_some();
    let update_options = args.retries.is_some() || args.timeout.is_some()
        || args.probe_required.is_some();
    if !update_credentials && !update_options {
        return Err(
            String::from_str(
                "未提供可更新项，请至少指定 --account/--password/--retries/--timeout/--probe-required",
            ),
        );
    }
    Ok(SetPlan { update_credentials, update_options })
}

/// The credentials to save: the given parts in place of the current ones
/// (empty where there are none); an error when either part ends up empty.
pub fn merge_credentials(args: &SetArgs, current: Option<&SavedCredentials>) -> (r: Result<
    (String, String),
    String,
>)
    ensures
        ({
            let account = given_or(
                opt_string_view(args.account),
                match current {
                    Some(c) => c.account@,
                    None => Seq::empty(),
                },
            );
            let password = given_or(
                opt_string_view(args.password),
                match current {
                    Some(c) => c.password@,
                    None => Seq::empty(),
                },
            );
            match r {
                Ok((a, p)) => a@ == account && p@ == password && account.len() > 0 && password.len()
                    > 0,
                Err(e) => (account.len() == 0 || password.len() == 0) && e@
                    == incomplete_credentials_message(),
            }
        }),
{
    let empty = String::new();
    let (cur_account, cur_password) = match current {
        Some(c) => (&c.account, &c.password),
        None => (&empty, &empty),
    };
    let account = given_or_exec(&args.account, cur_account);
    let password = given_or_exec(&args.password, cur_password);
    if account.as_str().is_empty() || password.as_str().is_empty() {
        return Err(
            String::from_str("更新账号或密码时需保证账号和密码都存在，可先使用 init 初始化"),
        );
    }
    Ok((account, password))
}

// ---------------------------------------------------------------------------
// Laws.
// ---------------------------------------------------------------------------

/// Settings that are not given keep their values, and given retry and
/// timeout settings are at least 1.
pub proof fn lemma_overrides(
    base: LoginOptions,
    retries: Option<u32>,
    timeout: Option<u64>,
    probe_required: Option<bool>,
)
    ensures
        retries is None ==> apply_overrides(base, retries, timeout, probe_required).max_login_retries
            == base.max_login_retries,
        retries is Some ==> apply_overrides(base, retries, timeout, probe_required).max_login_retries
            >= 1,
        timeout is None ==> apply_overrides(base, retries, timeout, probe_required).timeout_secs
            == base.timeout_secs,
        timeout is Some ==> apply_overrides(base, retries, timeout, probe_required).timeout_secs >= 1,
        probe_required is None ==> apply_overrides(
            base,
            retries,
            timeout,
            probe_required,
        ).probe_required == base.probe_required,
        apply_overrides(base, None, None, None) == base,
{
}

/// A setting given on the command line is the one used: a probe setting
/// as given, retries and timeout as given when at least 1, and 1 when 0.
pub proof fn lemma_given_settings_used(
    base: LoginOptions,
    retries: Option<u32>,
    timeout: Option<u64>,
    probe_required: Option<bool>,
)
    ensures
        retries matches Some(x) ==> x >= 1 ==> apply_overrides(
            base,
            retries,
            timeout,
            probe_required,
        ).max_login_retries == x,
        retries == Some(0u32) ==> apply_overrides(
            base,
            retries,
            timeout,
            probe_required,
        ).max_login_retries == 1,
        timeout matches Some(x) ==> x >= 1 ==> apply_overrides(
            base,
            retries,
            timeout,
            probe_required,
        ).timeout_secs == x,
        timeout == Some(0u64) ==> apply_overrides(base, retries, timeout, probe_required).timeout_secs
            == 1,
        probe_required matches Some(b) ==> apply_overrides(
            base,
            retries,
            timeout,
            probe_required,
        ).probe_required == b,
{
}

/// Where saved credentials are used, a part given on the command line
/// takes the place of the saved one: a given password with the saved
/// account, a given account with the saved password, and the saved pair
/// when nothing is given, each as long as neither part is empty.
pub proof fn lemma_given_part_overrides_saved(
    args: LoginArgsView,
    s: SavedCredentialsView,
    prompted: Option<Seq<char>>,
)
    requires
        args.use_saved,
    ensures
        (args.account is None && args.password is Some && args.password->0.len() > 0
            && s.account.len() > 0) ==> resolve_auth_spec(args, Some(Some(s)), prompted) == AuthStepView::Resolved(
            s.account,
            args.password->0,
        ),
        (args.password is None && args.account is Some && args.account->0.len() > 0
            && s.password.len() > 0) ==> resolve_auth_spec(args, Some(Some(s)), prompted) == AuthStepView::Resolved(
            args.account->0,
            s.password,
        ),
        (args.account is None && args.password is None && s.account.len() > 0 && s.password.len()
            > 0) ==> resolve_auth_spec(args, Some(Some(s)), prompted) == AuthStepView::Resolved(
            s.account,
            s.password,
        ),
{
}

/// Without usable saved credentials, a login with only an account given
/// asks for its password, uses the typed password when it is not empty,
/// and reports missing credentials when it is empty; with no account given
/// it reports missing credentials.
pub proof fn lemma_prompt_when_nothing_saved(
    args: LoginArgsView,
    saved: Option<Option<SavedCredentialsView>>,
    prompted: Option<Seq<char>>,
)
    requires
        args.password is None,
        !args.use_saved || saved == Some(None::<SavedCredentialsView>),
    ensures
        args.account is Some && prompted is None ==> resolve_auth_spec(args, saved, prompted)
            == AuthStepView::PromptPassword(args.account->0),
        args.account is Some && prompted is Some && prompted->0.len() > 0 ==> resolve_auth_spec(
            args,
            saved,
            prompted,
        ) == AuthStepView::Resolved(args.account->0, prompted->0),
        args.account is Some && prompted is Some && prompted->0.len() == 0 ==> resolve_auth_spec(
            args,
            saved,
            prompted,
        ) == AuthStepView::Missing(missing_credentials_message()),
        args.account is None ==> resolve_auth_spec(args, saved, prompted) == AuthStepView::Missing(
            missing_credentials_message(),
        ),
{
}

/// An account and a password both given on the command line are used as
/// they are, whatever is saved.
pub proof fn lemma_given_credentials_win(
    args: LoginArgsView,
    saved: Option<Option<SavedCredentialsView>>,
    prompted: Option<Seq<char>>,
)
    requires
        args.account is Some,
        args.password is Some,
    ensures
        resolve_auth_spec(args, saved, prompted) == AuthStepView::Resolved(
            args.account->0,
            args.password->0,
        ),
{
}

/// Resolution asks for a password only for an account given on the
/// command line, and reports missing credentials only when neither the
/// command line nor the saved credentials (where used) give both parts.
pub proof fn lemma_auth_prompts_only_for_given_account(
    args: LoginArgsView,
    saved: Option<Option<SavedCredentialsView>>,
    prompted: Option<Seq<char>>,
)
    ensures
        resolve_auth_spec(args, saved, prompted) matches AuthStepView::PromptPassword(a) ==> args.account
            == Some(a) && prompted is None,
        resolve_auth_spec(args, saved, prompted) is LoadSaved ==> args.use_saved && saved is None,
{
}

/// What the `login` command does once the run has answered.
#[derive(Clone, Copy, Debug, PartialEq, Eq, Structural)]
pub struct LoginOutcome {
    /// The process's exit code: 0 after a successful login, 2 otherwise.
    pub exit_code: u8,
    /// Whether to save the credentials the login used.
    pub save_credentials: bool,
}

/// The exit code and the saving decision for a login that answered
/// `response`: the credentials are saved only after a successful login, and
/// only when asked to.
pub fn login_outcome(response: &LoginResponse, save_after_login: bool) -> (r: LoginOutcome)
    ensures
        r.exit_code == (if response.success {
            0u8
        } else {
            2u8
        }),
        r.save_credentials == (response.success && save_after_login),
{
    LoginOutcome {
        exit_code: if response.success {
            0
        } else {
            2
        },
        save_credentials: response.success && save_after_login,
    }
}

} // verus!
