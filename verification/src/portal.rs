//! The captive portal's protocol: addresses, request plans, and the reading
//! of its replies.
use vstd::prelude::*;

use crate::models::LoginFailureKind;
use crate::text::{
    concat_str, has_substring, lemma_find_char, lowercase, replace_all, replace_all_exec, split_once_char,
    split_once_spec, str_contains, str_starts_with, string_of_range, chars_of, to_lowercase,
};

verus! {

/// What the portal answered to a login form.
#[derive(Debug)]
pub struct LoginSubmitResult {
    pub success: bool,
    pub message: Option<String>,
    pub failure_kind: Option<LoginFailureKind>,
}

/// A `LoginSubmitResult` with its message as a character sequence.
#[verifier::ext_equal]
pub struct LoginSubmitResultView {
    pub success: bool,
    pub message: Option<Seq<char>>,
    pub failure_kind: Option<LoginFailureKind>,
}

pub open spec fn opt_string_view(o: Option<String>) -> Option<Seq<char>> {
    match o {
        Some(s) => Some(s@),
        None => None,
    }
}

impl View for LoginSubmitResult {
    type V = LoginSubmitResultView;

    open spec fn view(&self) -> LoginSubmitResultView {
        LoginSubmitResultView {
            success: self.success,
            message: opt_string_view(self.message),
            failure_kind: self.failure_kind,
        }
    }
}

// ---------------------------------------------------------------------------
// Form encoding.
// ---------------------------------------------------------------------------

/// The `application/x-www-form-urlencoded` text of a list of pairs.
pub uninterp spec fn form_urlencoding(pairs: Seq<(Seq<char>, Seq<char>)>) -> Seq<char>;

/// Calls `serde_urlencoded::to_string` on a list of string pairs.  Claimed:
/// the result is the named encoding of the pairs.  The crate's serializer
/// reports errors only for values other than strings, integers and the
/// like, so a list of string pairs always encodes.
#[verifier::external_body]
pub(crate) fn form_urlencode(pairs: &Vec<(String, String)>) -> (r: String)
    ensures
        r@ == form_urlencoding(pairs.deep_view()),
{
    match serde_urlencoded::to_string(pairs) {
        Ok(s) => s,
        Err(_) => String::new(),
    }
}

/// Appends the pair (`k`, `v`) to `pairs`.
pub fn push_pair(pairs: &mut Vec<(String, String)>, k: &str, v: &str)
    ensures
        final(pairs).deep_view() == old(pairs).deep_view().push((k@, v@)),
{
    pairs.push((String::from_str(k), String::from_str(v)));
    assert(final(pairs).deep_view() =~= old(pairs).deep_view().push((k@, v@)));
}

// ---------------------------------------------------------------------------
// The portal's addresses.
// ---------------------------------------------------------------------------

pub open spec fn portal_base_url() -> Seq<char> {
    "https://192.168.200.127:8445"@
}

pub open spec fn portal_folder_name() -> Seq<char> {
    "1606381611261/pc"@
}

pub open spec fn portal_page_config_id() -> Seq<char> {
    "ff808081760371a1017603ce291b008d"@
}

/// The query of the portal's entry pages, stamped with `now_millis`.
pub open spec fn auth_query_pairs(now_millis: Seq<char>) -> Seq<(Seq<char>, Seq<char>)> {
    seq![
        ("isPasscode"@, "N"@),
        ("browserFlag"@, "zh"@),
        ("folderName"@, portal_folder_name()),
        ("httpsFlag"@, "Y"@),
        ("publicBarcodeEncode"@, "null"@),
        ("ssid"@, "edu_classroom"@),
        ("url"@, "http://www.msftconnecttest.com/redirect"@),
        ("authSuccess"@, "2"@),
        ("redirectUrl"@, ""@),
        ("urlParameter"@, "http://www.msftconnecttest.com/redirect"@),
        ("currentTime"@, now_millis),
        ("authislogoff"@, "true"@),
    ]
}

/// The address of the portal page `page` ("auth.jsp", "success.jsp").
pub open spec fn portal_page_url(page: Seq<char>, now_millis: Seq<char>) -> Seq<char> {
    portal_base_url() + "/PortalServer/customize/"@ + portal_folder_name() + "/"@ + page + "?"@
        + form_urlencoding(auth_query_pairs(now_millis))
}

/// The session with the portal, as far as the protocol's decisions read
/// it; the HTTP client itself lives with the front end.
#[derive(Debug)]
pub struct PortalClient {
    pub username: String,
    pub password: String,
    pub timeout_secs: u64,
    pub base_url: String,
    pub folder_name: String,
    pub custom_page_config_id: String,
    pub auth_url: String,
    pub success_url: String,
    pub xsrf_token: Option<String>,
}

#[verifier::ext_equal]
pub struct PortalClientView {
    pub username: Seq<char>,
    pub password: Seq<char>,
    pub timeout_secs: u64,
    pub base_url: Seq<char>,
    pub folder_name: Seq<char>,
    pub custom_page_config_id: Seq<char>,
    pub auth_url: Seq<char>,
    pub success_url: Seq<char>,
    pub xsrf_token: Option<Seq<char>>,
}

impl View for PortalClient {
    type V = PortalClientView;

    open spec fn view(&self) -> PortalClientView {
        PortalClientView {
            username: self.username@,
            password: self.password@,
            timeout_secs: self.timeout_secs,
            base_url: self.base_url@,
            folder_name: self.folder_name@,
            custom_page_config_id: self.custom_page_config_id@,
            auth_url: self.auth_url@,
            success_url: self.success_url@,
            xsrf_token: opt_string_view(self.xsrf_token),
        }
    }
}

/// The part of `url` before its query.
pub open spec fn summarize_url_spec(url: Seq<char>) -> Seq<char> {
    match split_once_spec(url, '?') {
        Some((base, _)) => base,
        None => url,
    }
}

/// The part of `url` before its query.
pub fn summarize_url(url: &str) -> (r: String)
    ensures
        r@ == summarize_url_spec(url@),
{
    match split_once_char(url, '?') {
        Some((base, _)) => base,
        None => String::from_str(url),
    }
}

/// `url` with `https://` turned into `http://`, when it begins so.
pub open spec fn https_to_http_spec(url: Seq<char>) -> Option<Seq<char>> {
    if "https://"@.is_prefix_of(url) {
        Some("http://"@ + url.skip(8))
    } else {
        None
    }
}

/// `url` with a leading `https://` turned into `http://`.
pub fn https_to_http(url: &str) -> (r: Option<String>)
    ensures
        match r {
            Some(s) => https_to_http_spec(url@) == Some(s@),
            None => https_to_http_spec(url@) is None,
        },
{
    proof {
        reveal_strlit("https://");
    }
    if !str_starts_with(url, "https://") {
        return None;
    }
    let v = chars_of(url);
    let rest = string_of_range(&v, 8, v.len());
    assert(rest@ =~= url@.skip(8));
    Some(concat_str("http://", rest.as_str()))
}

/// The plain-HTTP address tried when an HTTPS request fails on Android.
pub open spec fn android_http_fallback_url_spec(url: Seq<char>) -> Option<Seq<char>> {
    match https_to_http_spec(url) {
        Some(u) => Some(replace_all(u, "httpsFlag=Y"@, "httpsFlag=N"@)),
        None => None,
    }
}

/// The plain-HTTP address tried when an HTTPS request fails on Android:
/// `http://` in place of `https://`, and the HTTPS flag of the query
/// turned off.  `None` for an address that is not HTTPS.
pub fn android_http_fallback_url(url: &str) -> (r: Option<String>)
    ensures
        match r {
            Some(s) => android_http_fallback_url_spec(url@) == Some(s@),
            None => android_http_fallback_url_spec(url@) is None,
        },
{
    match https_to_http(url) {
        Some(u) => {
            proof {
                reveal_strlit("httpsFlag=Y");
            }
            Some(replace_all_exec(u.as_str(), "httpsFlag=Y", "httpsFlag=N"))
        },
        None => None,
    }
}

/// The error text of a request that could not be sent.
pub open spec fn request_failure_spec(error: Seq<char>, url: Seq<char>) -> Seq<char> {
    "http request failed: "@ + error + "; endpoint="@ + summarize_url_spec(url)
}

/// The error text of a request that could not be sent.
pub fn request_failure_message(error: &str, url: &str) -> (r: String)
    ensures
        r@ == request_failure_spec(error@, url@),
{
    let mut m = String::from_str("http request failed: ");
    m.append(error);
    m.append("; endpoint=");
    let s = summarize_url(url);
    m.append(s.as_str());
    m
}

/// The error text of a request that failed over HTTPS and again over the
/// plain-HTTP fallback.
pub open spec fn fallback_failure_spec(error: Seq<char>, fallback_error: Seq<char>, url: Seq<
    char,
>) -> Seq<char> {
    "http request failed: "@ + error + "; fallback failed: "@ + fallback_error + "; endpoint="@
        + summarize_url_spec(url)
}

/// The error text of a request that failed over HTTPS and again over the
/// plain-HTTP fallback.
pub fn fallback_failure_message(error: &str, fallback_error: &str, url: &str) -> (r: String)
    ensures
        r@ == fallback_failure_spec(error@, fallback_error@, url@),
{
    let mut m = String::from_str("http request failed: ");
    m.append(error);
    m.append("; fallback failed: ");
    m.append(fallback_error);
    m.append("; endpoint=");
    let s = summarize_url(url);
    m.append(s.as_str());
    m
}

// ---------------------------------------------------------------------------
// The XSRF token.
// ---------------------------------------------------------------------------

/// The XSRF token that one `Set-Cookie` value carries, if any; `None` also
/// stands for a value that is not visible ASCII.
pub open spec fn xsrf_of_cookie(value: Option<Seq<char>>) -> Option<Seq<char>> {
    match value {
        Some(v) => if "XSRF-TOKEN="@.is_prefix_of(v) {
            let rest = v.skip(11);
            let token = match split_once_spec(rest, ';') {
                Some((t, _)) => t,
                None => rest,
            };
            if token.len() > 0 {
                Some(token)
            } else {
                None
            }
        } else {
            None
        },
        None => None,
    }
}

/// The token of the first `Set-Cookie` value that carries one.
pub open spec fn first_xsrf(values: Seq<Option<Seq<char>>>) -> Option<Seq<char>>
    decreases values.len(),
{
    if values.len() == 0 {
        None
    } else {
        match xsrf_of_cookie(values[0]) {
            Some(t) => Some(t),
            None => first_xsrf(values.drop_first()),
        }
    }
}

pub open spec fn cookie_values_view(values: Seq<Option<String>>) -> Seq<Option<Seq<char>>> {
    Seq::new(values.len(), |i: int| opt_string_view(values[i]))
}

fn xsrf_of_cookie_exec(value: &Option<String>) -> (r: Option<String>)
    ensures
        opt_string_view(r) == xsrf_of_cookie(opt_string_view(*value)),
{
    match value {
        Some(v) => {
            proof {
                reveal_strlit("XSRF-TOKEN=");
            }
            if !str_starts_with(v.as_str(), "XSRF-TOKEN=") {
                return None;
            }
            let cs = chars_of(v.as_str());
            let rest = string_of_range(&cs, 11, cs.len());
            assert(rest@ =~= v@.skip(11));
            let token = match split_once_char(rest.as_str(), ';') {
                Some((t, _)) => t,
                None => rest,
            };
            if token.as_str().is_empty() {
                None
            } else {
                Some(token)
            }
        },
        None => None,
    }
}

impl PortalClient {
    /// A session for `username`, whose entry pages are stamped with
    /// `now_millis` (the time in milliseconds, in decimal).
    pub fn new(username: String, password: String, timeout_secs: u64, now_millis: &str) -> (r:
        PortalClient)
        ensures
            r@.username == username@,
            r@.password == password@,
            r@.timeout_secs == timeout_secs,
            r@.base_url == portal_base_url(),
            r@.folder_name == portal_folder_name(),
            r@.custom_page_config_id == portal_page_config_id(),
            r@.auth_url == portal_page_url("auth.jsp"@, now_millis@),
            r@.success_url == portal_page_url("success.jsp"@, now_millis@),
            r@.xsrf_token is None,
    {
        let base_url = String::from_str("https://192.168.200.127:8445");
        let folder_name = String::from_str("1606381611261/pc");
        let custom_page_config_id = String::from_str("ff808081760371a1017603ce291b008d");
        let mut pairs: Vec<(String, String)> = Vec::new();
        push_pair(&mut pairs, "isPasscode", "N");
        push_pair(&mut pairs, "browserFlag", "zh");
        push_pair(&mut pairs, "folderName", folder_name.as_str());
        push_pair(&mut pairs, "httpsFlag", "Y");
        push_pair(&mut pairs, "publicBarcodeEncode", "null");
        push_pair(&mut pairs, "ssid", "edu_classroom");
        push_pair(&mut pairs, "url", "http://www.msftconnecttest.com/redirect");
        push_pair(&mut pairs, "authSuccess", "2");
        push_pair(&mut pairs, "redirectUrl", "");
        push_pair(&mut pairs, "urlParameter", "http://www.msftconnecttest.com/redirect");
        push_pair(&mut pairs, "currentTime", now_millis);
        push_pair(&mut pairs, "authislogoff", "true");
        assert(pairs.deep_view() =~= auth_query_pairs(now_millis@));
        let query = form_urlencode(&pairs);
        let mut auth_url = base_url.clone();
        auth_url.append("/PortalServer/customize/");
        auth_url.append(folder_name.as_str());
        auth_url.append("/");
        auth_url.append("auth.jsp");
        auth_url.append("?");
        auth_url.append(query.as_str());
        let mut success_url = base_url.clone();
        success_url.append("/PortalServer/customize/");
        success_url.append(folder_name.as_str());
        success_url.append("/");
        success_url.append("success.jsp");
        success_url.append("?");
        success_url.append(query.as_str());
        PortalClient {
            username,
            password,
            timeout_secs,
            base_url,
            folder_name,
            custom_page_config_id,
            auth_url,
            success_url,
            xsrf_token: None,
        }
    }

    /// The address that `path_or_url` names: itself when it is absolute
    /// (begins with "http"), else a path on the portal.
    pub fn resolve_url(&self, path_or_url: &str) -> (r: String)
        ensures
            r@ == (if "http"@.is_prefix_of(path_or_url@) {
                path_or_url@
            } else {
                self@.base_url + path_or_url@
            }),
    {
        if str_starts_with(path_or_url, "http") {
            String::from_str(path_or_url)
        } else {
            concat_str(self.base_url.as_str(), path_or_url)
        }
    }

    /// The address of the captcha image, stamped with `date`.
    pub fn valid_code_url(&self, date: &str) -> (r: String)
        ensures
            r@ == "/PortalServer/validCodeImg?"@ + form_urlencoding(
                seq![
                    ("date"@, date@),
                    ("includeLetter"@, "true"@),
                    ("folderName"@, self@.folder_name),
                    ("httpsFlag"@, "Y"@),
                ],
            ),
    {
        let mut pairs: Vec<(String, String)> = Vec::new();
        push_pair(&mut pairs, "date", date);
        push_pair(&mut pairs, "includeLetter", "true");
        push_pair(&mut pairs, "folderName", self.folder_name.as_str());
        push_pair(&mut pairs, "httpsFlag", "Y");
        assert(pairs.deep_view() =~= seq![
            ("date"@, date@),
            ("includeLetter"@, "true"@),
            ("folderName"@, self@.folder_name),
            ("httpsFlag"@, "Y"@),
        ]);
        let query = form_urlencode(&pairs);
        concat_str("/PortalServer/validCodeImg?", query.as_str())
    }

    /// Takes the XSRF token from the `Set-Cookie` values of a response
    /// (`None` for a value that is not visible ASCII): the first value of
    /// the form `XSRF-TOKEN=<token>[;...]` with a non-empty token replaces
    /// the session's token; without one the token is kept.
    pub fn sync_xsrf_from_headers(&mut self, set_cookie: &Vec<Option<String>>)
        ensures
            final(self)@ == (PortalClientView {
                xsrf_token: match first_xsrf(cookie_values_view(set_cookie@)) {
                    Some(t) => Some(t),
                    None => old(self)@.xsrf_token,
                },
                ..old(self)@
            }),
    {
        let ghost vals = cookie_values_view(set_cookie@);
        let mut i: usize = 0;
        assert(vals.skip(0) =~= vals);
        while i < set_cookie.len()
            invariant
                i <= set_cookie.len(),
                vals == cookie_values_view(set_cookie@),
                *self == *old(self),
                first_xsrf(vals) == first_xsrf(vals.skip(i as int)),
            decreases set_cookie.len() - i,
        {
            let found = xsrf_of_cookie_exec(&set_cookie[i]);
            assert(vals.skip(i as int).drop_first() =~= vals.skip(i + 1));
            assert(vals.skip(i as int)[0] == vals[i as int]);
            match found {
                Some(t) => {
                    self.xsrf_token = Some(t);
                    return;
                },
                None => {},
            }
            i = i + 1;
        }
        assert(vals.skip(i as int).len() == 0);
    }
}

// ---------------------------------------------------------------------------
// Request plans.
// ---------------------------------------------------------------------------

#[derive(Clone, Copy, Debug, PartialEq, Eq, Structural)]
pub enum HttpMethod {
    Get,
    Post,
}

/// Where a request goes: an address (absolute, or a path on the portal),
/// or the captcha image, whose address is stamped with the time at which
/// the request is sent.
#[derive(Debug)]
pub enum RequestTarget {
    Address(String),
    CaptchaImage,
}

pub enum RequestTargetView {
    Address(Seq<char>),
    CaptchaImage,
}

/// One request to the portal.  `ajax` requests carry the headers of the
/// portal's own script calls.
#[derive(Debug)]
pub struct PortalRequest {
    pub method: HttpMethod,
    pub target: RequestTarget,
    pub referer: String,
    pub ajax: bool,
    pub form: Option<Vec<(String, String)>>,
}

#[verifier::ext_equal]
pub struct PortalRequestView {
    pub method: HttpMethod,
    pub target: RequestTargetView,
    pub referer: Seq<char>,
    pub ajax: bool,
    pub form: Option<Seq<(Seq<char>, Seq<char>)>>,
}

impl View for PortalRequest {
    type V = PortalRequestView;

    open spec fn view(&self) -> PortalRequestView {
        PortalRequestView {
            method: self.method,
            target: match self.target {
                RequestTarget::Address(a) => RequestTargetView::Address(a@),
                RequestTarget::CaptchaImage => RequestTargetView::CaptchaImage,
            },
            referer: self.referer@,
            ajax: self.ajax,
            form: match self.form {
                Some(f) => Some(f.deep_view()),
                None => None,
            },
        }
    }
}

pub open spec fn requests_view(v: Seq<PortalRequest>) -> Seq<PortalRequestView> {
    Seq::new(v.len(), |i: int| v[i]@)
}

/// A plain page request.
pub open spec fn page_request(target: RequestTargetView, referer: Seq<char>) -> PortalRequestView {
    PortalRequestView { method: HttpMethod::Get, target, referer, ajax: false, form: None }
}

/// The requests that open a session, in order: the entry page and its
/// resources, the captcha image, the page configuration and the
/// third-party login settings.
pub open spec fn init_session_plan_spec(c: PortalClientView) -> Seq<PortalRequestView> {
    seq![
        page_request(RequestTargetView::Address(c.auth_url), c.auth_url),
        page_request(
            RequestTargetView::Address("/PortalServer/material/custom/custom.css"@),
            c.auth_url,
        ),
        page_request(RequestTargetView::Address("/PortalServer/material/custom/auth.js"@), c.auth_url),
        page_request(
            RequestTargetView::Address("/PortalServer/material/custom/lang/auth-zh.js"@),
            c.auth_url,
        ),
        page_request(RequestTargetView::CaptchaImage, c.auth_url),
        PortalRequestView {
            method: HttpMethod::Post,
            target: RequestTargetView::Address(
                "/PortalServer/Webauth/webAuthAction!getCustomPageConfig.action"@,
            ),
            referer: c.auth_url,
            ajax: true,
            form: Some(seq![("customPageConfigId"@, c.custom_page_config_id)]),
        },
        PortalRequestView {
            method: HttpMethod::Get,
            target: RequestTargetView::Address(
                "/PortalServer/Webauth/thirdPartyAuthAction!getAppIdInfo.action"@,
            ),
            referer: c.auth_url,
            ajax: true,
            form: None,
        },
    ]
}

/// The form that submits a login.
pub open spec fn login_form_spec(user: Seq<char>, password: Seq<char>, code: Seq<char>) -> Seq<
    (Seq<char>, Seq<char>),
> {
    seq![
        ("authType"@, ""@),
        ("userName"@, user),
        ("password"@, password),
        ("validCode"@, code),
        ("valideCodeFlag"@, "true"@),
        ("authLan"@, "zh_CN"@),
        ("hasValidateNextUpdatePassword"@, "true"@),
        ("rememberPwd"@, "false"@),
        ("browserFlag"@, "zh"@),
        ("hasCheckCode"@, "false"@),
        ("checkcode"@, ""@),
        ("hasRsaToken"@, "false"@),
        ("rsaToken"@, ""@),
        ("autoLogin"@, "false"@),
        ("userMac"@, ""@),
        ("isBoardPage"@, "false"@),
        ("disablePortalMac"@, "false"@),
        ("overdueHour"@, "0"@),
        ("overdueMinute"@, "0"@),
        ("isAccountMsgAuth"@, ""@),
        ("validCodeForAuth"@, ""@),
        ("isAgreeCheck"@, "1"@),
    ]
}

/// The requests that follow a successful login: the success page, the
/// synchronisation of the login result, and the binding policy.
pub open spec fn post_login_sync_plan_spec(c: PortalClientView) -> Seq<PortalRequestView> {
    seq![
        page_request(RequestTargetView::Address(c.success_url), c.auth_url),
        PortalRequestView {
            method: HttpMethod::Post,
            target: RequestTargetView::Address(
                "/PortalServer/Webauth/webAuthAction!syncPortalAuthResult.action"@,
            ),
            referer: c.auth_url,
            ajax: true,
            form: Some(seq![("browserFlag"@, "zh"@), ("userMac"@, ""@)]),
        },
        PortalRequestView {
            method: HttpMethod::Post,
            target: RequestTargetView::Address(
                "/PortalServer/Webauth/webAuthAction!getBindPolicy.action"@,
            ),
            referer: c.success_url,
            ajax: true,
            form: Some(seq![("browserFlag"@, "zh"@)]),
        },
    ]
}

fn address(s: &str) -> (t: RequestTarget)
    ensures
        t matches RequestTarget::Address(a) && a@ == s@,
{
    RequestTarget::Address(String::from_str(s))
}

fn push_request(plan: &mut Vec<PortalRequest>, r: PortalRequest)
    ensures
        requests_view(final(plan)@) == requests_view(old(plan)@).push(r@),
{
    plan.push(r);
    assert(requests_view(final(plan)@) =~= requests_view(old(plan)@).push(r@));
}

/// A header of a request: its name, its value, and, for a value that comes
/// from the session rather than from the protocol, the message under which
/// a value that cannot stand in a header is refused.
#[derive(Debug)]
pub struct RequestHeader {
    pub name: String,
    pub value: String,
    pub refusal: Option<String>,
}

#[verifier::ext_equal]
pub struct RequestHeaderView {
    pub name: Seq<char>,
    pub value: Seq<char>,
    pub refusal: Option<Seq<char>>,
}

impl View for RequestHeader {
    type V = RequestHeaderView;

    open spec fn view(&self) -> RequestHeaderView {
        RequestHeaderView {
            name: self.name@,
            value: self.value@,
            refusal: opt_string_view(self.refusal),
        }
    }
}

pub open spec fn headers_view(v: Seq<RequestHeader>) -> Seq<RequestHeaderView> {
    Seq::new(v.len(), |i: int| v[i]@)
}

pub open spec fn header(name: Seq<char>, value: Seq<char>, refusal: Option<Seq<char>>) -> RequestHeaderView {
    RequestHeaderView { name, value, refusal }
}

/// The headers of a request, in order: for a request the portal's script
/// makes, those of its XMLHttpRequest with the portal as origin; then the
/// referer, if any; then the XSRF token of the session, if it has one.
pub open spec fn request_headers_spec(c: PortalClientView, ajax: bool, referer: Option<Seq<char>>) -> Seq<
    RequestHeaderView,
> {
    let script: Seq<RequestHeaderView> = if ajax {
        seq![
            header("accept"@, "*/*"@, None),
            header("content-type"@, "application/x-www-form-urlencoded; charset=UTF-8"@, None),
            header("origin"@, c.base_url, Some("invalid origin"@)),
            header("x-requested-with"@, "XMLHttpRequest"@, None),
        ]
    } else {
        Seq::empty()
    };
    let with_referer = match referer {
        Some(r) => script.push(header("referer"@, r, Some("invalid referer"@))),
        None => script,
    };
    match c.xsrf_token {
        Some(t) => with_referer.push(header("x-xsrf-token"@, t, Some("invalid xsrf token"@))),
        None => with_referer,
    }
}

fn push_header(headers: &mut Vec<RequestHeader>, name: &str, value: String, refusal: Option<&str>)
    ensures
        headers_view(final(headers)@) == headers_view(old(headers)@).push(
            header(
                name@,
                value@,
                match refusal {
                    Some(m) => Some(m@),
                    None => None,
                },
            ),
        ),
{
    let refusal = match refusal {
        Some(m) => Some(String::from_str(m)),
        None => None,
    };
    headers.push(RequestHeader { name: String::from_str(name), value, refusal });
    assert(headers_view(final(headers)@) =~= headers_view(old(headers)@).push(
        header(
            name@,
            value@,
            match refusal {
                Some(m) => Some(m@),
                None => None,
            },
        ),
    ));
}

impl PortalClient {
    /// The headers to send with a request: see `request_headers_spec`.
    pub fn request_headers(&self, ajax: bool, referer: Option<&str>) -> (r: Vec<RequestHeader>)
        ensures
            headers_view(r@) == request_headers_spec(
                self@,
                ajax,
                match referer {
                    Some(x) => Some(x@),
                    None => None,
                },
            ),
    {
        let mut headers: Vec<RequestHeader> = Vec::new();
        if ajax {
            push_header(&mut headers, "accept", String::from_str("*/*"), None);
            push_header(
                &mut headers,
                "content-type",
                String::from_str("application/x-www-form-urlencoded; charset=UTF-8"),
                None,
            );
            push_header(&mut headers, "origin", self.base_url.clone(), Some("invalid origin"));
            push_header(&mut headers, "x-requested-with", String::from_str("XMLHttpRequest"), None);
        }
        match referer {
            Some(r) => push_header(&mut headers, "referer", String::from_str(r), Some("invalid referer")),
            None => {},
        }
        match &self.xsrf_token {
            Some(t) => push_header(&mut headers, "x-xsrf-token", t.clone(), Some("invalid xsrf token")),
            None => {},
        }
        proof {
            let spec = request_headers_spec(
                self@,
                ajax,
                match referer {
                    Some(x) => Some(x@),
                    None => None,
                },
            );
            assert(headers_view(headers@) =~= spec);
        }
        headers
    }
}

/// The requests of each stage, by their views.
pub open spec fn stages_view(v: Seq<Vec<PortalRequest>>) -> Seq<Seq<PortalRequestView>> {
    Seq::new(v.len(), |i: int| requests_view(v[i]@))
}

/// The requests that open a session, in stages: a stage begins once the
/// one before it has ended, and the requests of one stage do not depend on
/// one another, so they may be sent at the same time.  The entry page comes
/// first; its three resources then form one stage; the captcha image, the
/// page configuration and the third-party login settings follow one by
/// one.
pub open spec fn init_session_stages_spec(c: PortalClientView) -> Seq<Seq<PortalRequestView>> {
    let p = init_session_plan_spec(c);
    seq![p.subrange(0, 1), p.subrange(1, 4), p.subrange(4, 5), p.subrange(5, 6), p.subrange(6, 7)]
}

/// The stages of a session's opening, one after another, give the requests
/// of `init_session_plan_spec` in its order.
pub proof fn lemma_session_stages_flatten(c: PortalClientView)
    ensures
        init_session_stages_spec(c).len() == 5,
        init_session_stages_spec(c)[0] + init_session_stages_spec(c)[1] + init_session_stages_spec(
            c,
        )[2] + init_session_stages_spec(c)[3] + init_session_stages_spec(c)[4]
            == init_session_plan_spec(c),
        init_session_stages_spec(c)[1].len() == 3,
{
    let p = init_session_plan_spec(c);
    let st = init_session_stages_spec(c);
    assert(st[0] + st[1] + st[2] + st[3] + st[4] =~= p);
}

fn page_request_exec(target: RequestTarget, referer: &String) -> (r: PortalRequest)
    ensures
        r@ == page_request(
            match target {
                RequestTarget::Address(a) => RequestTargetView::Address(a@),
                RequestTarget::CaptchaImage => RequestTargetView::CaptchaImage,
            },
            referer@,
        ),
{
    PortalRequest {
        method: HttpMethod::Get,
        target,
        referer: referer.clone(),
        ajax: false,
        form: None,
    }
}

impl PortalClient {
    /// The requests that open a session, in stages: see
    /// `init_session_stages_spec`.
    pub fn init_session_plan(&self) -> (plan: Vec<Vec<PortalRequest>>)
        ensures
            stages_view(plan@) == init_session_stages_spec(self@),
    {
        let auth = &self.auth_url;
        let entry = page_request_exec(RequestTarget::Address(auth.clone()), auth);
        let css = page_request_exec(address("/PortalServer/material/custom/custom.css"), auth);
        let js = page_request_exec(address("/PortalServer/material/custom/auth.js"), auth);
        let lang = page_request_exec(address("/PortalServer/material/custom/lang/auth-zh.js"), auth);
        let captcha = page_request_exec(RequestTarget::CaptchaImage, auth);
        let mut config: Vec<(String, String)> = Vec::new();
        push_pair(&mut config, "customPageConfigId", self.custom_page_config_id.as_str());
        let page_config = PortalRequest {
            method: HttpMethod::Post,
            target: address("/PortalServer/Webauth/webAuthAction!getCustomPageConfig.action"),
            referer: auth.clone(),
            ajax: true,
            form: Some(config),
        };
        let app_id = PortalRequest {
            method: HttpMethod::Get,
            target: address("/PortalServer/Webauth/thirdPartyAuthAction!getAppIdInfo.action"),
            referer: auth.clone(),
            ajax: true,
            form: None,
        };
        let ghost views = seq![entry@, css@, js@, lang@, captcha@, page_config@, app_id@];
        assert(views =~~= init_session_plan_spec(self@));
        let plan = vec![vec![entry], vec![css, js, lang], vec![captcha], vec![page_config], vec![app_id]];
        proof {
            let p = init_session_plan_spec(self@);
            assert(stages_view(plan@)[0] =~~= p.subrange(0, 1));
            assert(stages_view(plan@)[1] =~~= p.subrange(1, 4));
            assert(stages_view(plan@)[2] =~~= p.subrange(4, 5));
            assert(stages_view(plan@)[3] =~~= p.subrange(5, 6));
            assert(stages_view(plan@)[4] =~~= p.subrange(6, 7));
            assert(stages_view(plan@) =~~= init_session_stages_spec(self@));
        }
        plan
    }

    /// The request for a captcha image.
    pub fn captcha_request(&self) -> (r: PortalRequest)
        ensures
            r@ == page_request(RequestTargetView::CaptchaImage, self@.auth_url),
    {
        PortalRequest {
            method: HttpMethod::Get,
            target: RequestTarget::CaptchaImage,
            referer: self.auth_url.clone(),
            ajax: false,
            form: None,
        }
    }

    /// The form that submits a login with the captcha text `valid_code`.
    pub fn login_form(&self, valid_code: &str) -> (f: Vec<(String, String)>)
        ensures
            f.deep_view() == login_form_spec(self@.username, self@.password, valid_code@),
    {
        let mut f: Vec<(String, String)> = Vec::new();
        push_pair(&mut f, "authType", "");
        push_pair(&mut f, "userName", self.username.as_str());
        push_pair(&mut f, "password", self.password.as_str());
        push_pair(&mut f, "validCode", valid_code);
        push_pair(&mut f, "valideCodeFlag", "true");
        push_pair(&mut f, "authLan", "zh_CN");
        push_pair(&mut f, "hasValidateNextUpdatePassword", "true");
        push_pair(&mut f, "rememberPwd", "false");
        push_pair(&mut f, "browserFlag", "zh");
        push_pair(&mut f, "hasCheckCode", "false");
        push_pair(&mut f, "checkcode", "");
        push_pair(&mut f, "hasRsaToken", "false");
        push_pair(&mut f, "rsaToken", "");
        push_pair(&mut f, "autoLogin", "false");
        push_pair(&mut f, "userMac", "");
        push_pair(&mut f, "isBoardPage", "false");
        push_pair(&mut f, "disablePortalMac", "false");
        push_pair(&mut f, "overdueHour", "0");
        push_pair(&mut f, "overdueMinute", "0");
        push_pair(&mut f, "isAccountMsgAuth", "");
        push_pair(&mut f, "validCodeForAuth", "");
        push_pair(&mut f, "isAgreeCheck", "1");
        assert(f.deep_view() =~= login_form_spec(self@.username, self@.password, valid_code@));
        f
    }

    /// The request that submits a login with the captcha text `valid_code`.
    pub fn login_request(&self, valid_code: &str) -> (r: PortalRequest)
        ensures
            r@ == (PortalRequestView {
                method: HttpMethod::Post,
                target: RequestTargetView::Address("/PortalServer/Webauth/webAuthAction!login.action"@),
                referer: self@.auth_url,
                ajax: true,
                form: Some(login_form_spec(self@.username, self@.password, valid_code@)),
            }),
    {
        PortalRequest {
            method: HttpMethod::Post,
            target: address("/PortalServer/Webauth/webAuthAction!login.action"),
            referer: self.auth_url.clone(),
            ajax: true,
            form: Some(self.login_form(valid_code)),
        }
    }

    /// The requests that follow a successful login.
    pub fn post_login_sync_plan(&self) -> (plan: Vec<PortalRequest>)
        ensures
            requests_view(plan@) == post_login_sync_plan_spec(self@),
    {
        let mut plan: Vec<PortalRequest> = Vec::new();
        push_request(
            &mut plan,
            PortalRequest {
                method: HttpMethod::Get,
                target: RequestTarget::Address(self.success_url.clone()),
                referer: self.auth_url.clone(),
                ajax: false,
                form: None,
            },
        );
        let mut sync: Vec<(String, String)> = Vec::new();
        push_pair(&mut sync, "browserFlag", "zh");
        push_pair(&mut sync, "userMac", "");
        push_request(
            &mut plan,
            PortalRequest {
                method: HttpMethod::Post,
                target: address("/PortalServer/Webauth/webAuthAction!syncPortalAuthResult.action"),
                referer: self.auth_url.clone(),
                ajax: true,
                form: Some(sync),
            },
        );
        let mut bind: Vec<(String, String)> = Vec::new();
        push_pair(&mut bind, "browserFlag", "zh");
        push_request(
            &mut plan,
            PortalRequest {
                method: HttpMethod::Post,
                target: address("/PortalServer/Webauth/webAuthAction!getBindPolicy.action"),
                referer: self.success_url.clone(),
                ajax: true,
                form: Some(bind),
            },
        );
        assert(requests_view(plan@) =~~= post_login_sync_plan_spec(self@));
        plan
    }
}

// ---------------------------------------------------------------------------
// The captcha reply.
// ---------------------------------------------------------------------------

/// Checks the status of a captcha reply: it must be 200 (OK).
/// `status_text` is how the status is written ("404 Not Found").
pub fn check_captcha_status(status: u16, status_text: &str) -> (r: Result<(), String>)
    ensures
        match r {
            Ok(()) => status == 200,
            Err(e) => status != 200 && e@ == "failed to fetch captcha image: "@ + status_text@,
        },
{
    if status != 200 {
        return Err(concat_str("failed to fetch captcha image: ", status_text));
    }
    Ok(())
}

/// Checks the image of a captcha reply: it must not be empty.
pub fn check_captcha_image(image: &[u8]) -> (r: Result<(), String>)
    ensures
        match r {
            Ok(()) => image@.len() > 0,
            Err(e) => image@.len() == 0 && e@ == "captcha image is empty"@,
        },
{
    if image.len() == 0 {
        return Err(String::from_str("captcha image is empty"));
    }
    Ok(())
}

// ---------------------------------------------------------------------------
// The login reply.
// ---------------------------------------------------------------------------

/// A JSON value as the portal's replies are read: numbers are kept as what
/// they are as a 64-bit signed integer, if they are one.
#[derive(Debug)]
pub enum JsonValue {
    Null,
    Bool(bool),
    Number(Option<i64>),
    String(String),
    Array(Vec<JsonValue>),
    Object(Vec<(String, JsonValue)>),
}

/// The value under `key` in the members of an object (the last one, should
/// the key occur twice).
pub open spec fn json_get(members: Seq<(String, JsonValue)>, key: Seq<char>) -> Option<JsonValue>
    decreases members.len(),
{
    if members.len() == 0 {
        None
    } else if members.last().0@ == key {
        Some(members.last().1)
    } else {
        json_get(members.drop_last(), key)
    }
}

/// The member `key` of `v`, when `v` is an object that has it.
pub open spec fn json_member(v: Option<JsonValue>, key: Seq<char>) -> Option<JsonValue> {
    match v {
        Some(JsonValue::Object(members)) => json_get(members@, key),
        _ => None,
    }
}

/// The text of `v`, when `v` is a string.
pub open spec fn json_text(v: Option<JsonValue>) -> Option<Seq<char>> {
    match v {
        Some(JsonValue::String(s)) => Some(s@),
        _ => None,
    }
}

/// The portal's verdict on a login, read from its reply: the portal's own
/// fields when the reply is a JSON object, else marks of success in the
/// reply's text.
pub open spec fn is_login_success_spec(payload: Option<JsonValue>, body: Seq<char>) -> bool {
    match payload {
        Some(JsonValue::Object(members)) => match json_get(members@, "data"@) {
            Some(JsonValue::Object(data)) => {
                &&& json_get(data@, "portalAuth"@) matches Some(JsonValue::Bool(true))
                &&& json_get(data@, "portalAuthStatus"@) matches Some(JsonValue::Number(Some(n)))
                    && n == 0
                &&& match json_get(data@, "portalErrorCode"@) {
                    None => true,
                    Some(JsonValue::Null) => true,
                    Some(JsonValue::Number(n)) => n == Some(0i64),
                    _ => false,
                }
            },
            _ => json_get(members@, "success"@) matches Some(JsonValue::Bool(true)),
        },
        _ => lowered_body_signals_success(lowercase(body)),
    }
}

/// The lowercased text of a reply that is not a JSON object shows success.
pub open spec fn lowered_body_signals_success(lowered: Seq<char>) -> bool {
    ||| has_substring(lowered, "success.jsp"@)
    ||| has_substring(lowered, "\"success\":true"@)
    ||| has_substring(lowered, "\"code\":0"@)
}

/// Whether the lowercased text of a reply shows success.
pub fn body_signals_success(lowered: &str) -> (r: bool)
    ensures
        r == lowered_body_signals_success(lowered@),
{
    str_contains(lowered, "success.jsp") || str_contains(lowered, "\"success\":true")
        || str_contains(lowered, "\"code\":0")
}

/// The portal's message in a login reply: the reply's `message`, else the
/// `message` of its `data`.
pub open spec fn login_message_spec(payload: Option<JsonValue>) -> Option<Seq<char>> {
    match json_text(json_member(payload, "message"@)) {
        Some(m) => Some(m),
        None => json_text(json_member(json_member(payload, "data"@), "message"@)),
    }
}

fn string_eq(a: &str, b: &str) -> (r: bool)
    ensures
        r == (a@ == b@),
{
    let av = chars_of(a);
    let bv = chars_of(b);
    if av.len() != bv.len() {
        return false;
    }
    let mut i: usize = 0;
    while i < av.len()
        invariant
            av@ == a@,
            bv@ == b@,
            av.len() == bv.len(),
            i <= av.len(),
            forall|j: int| 0 <= j < i ==> av@[j] == bv@[j],
        decreases av.len() - i,
    {
        if av[i] != bv[i] {
            return false;
        }
        i = i + 1;
    }
    assert(av@ =~= bv@);
    true
}

/// The value under `key` in the members of an object.
pub fn json_lookup<'a>(members: &'a Vec<(String, JsonValue)>, key: &str) -> (r: Option<
    &'a JsonValue,
>)
    ensures
        match r {
            Some(v) => json_get(members@, key@) == Some(*v),
            None => json_get(members@, key@) is None,
        },
{
    let mut i: usize = members.len();
    assert(members@.take(i as int) =~= members@);
    while i > 0
        invariant
            i <= members.len(),
            json_get(members@, key@) == json_get(members@.take(i as int), key@),
        decreases i,
    {
        let ghost pre = members@.take(i as int);
        assert(pre.drop_last() =~= members@.take(i - 1));
        assert(pre.last() == members@[i - 1]);
        if string_eq(members[i - 1].0.as_str(), key) {
            return Some(&members[i - 1].1);
        }
        i = i - 1;
    }
    None
}

fn json_member_exec<'a>(v: Option<&'a JsonValue>, key: &str) -> (r: Option<&'a JsonValue>)
    ensures
        match r {
            Some(x) => json_member(
                match v {
                    Some(y) => Some(*y),
                    None => None,
                },
                key@,
            ) == Some(*x),
            None => json_member(
                match v {
                    Some(y) => Some(*y),
                    None => None,
                },
                key@,
            ) is None,
        },
{
    match v {
        Some(JsonValue::Object(members)) => json_lookup(members, key),
        _ => None,
    }
}

pub open spec fn opt_ref(v: Option<&JsonValue>) -> Option<JsonValue> {
    match v {
        Some(y) => Some(*y),
        None => None,
    }
}

/// Reads the portal's verdict on a login from its reply (`payload` is the
/// reply parsed as JSON, when it parses).
pub fn is_login_success(payload: Option<&JsonValue>, body: &str) -> (r: bool)
    ensures
        r == is_login_success_spec(opt_ref(payload), body@),
{
    match payload {
        Some(JsonValue::Object(members)) => match json_lookup(members, "data") {
            Some(JsonValue::Object(data)) => {
                let portal_auth = match json_lookup(data, "portalAuth") {
                    Some(JsonValue::Bool(b)) => *b,
                    _ => false,
                };
                let status_ok = match json_lookup(data, "portalAuthStatus") {
                    Some(JsonValue::Number(Some(n))) => *n == 0,
                    _ => false,
                };
                let error_ok = match json_lookup(data, "portalErrorCode") {
                    None => true,
                    Some(JsonValue::Null) => true,
                    Some(JsonValue::Number(n)) => match n {
                        Some(k) => *k == 0,
                        None => false,
                    },
                    _ => false,
                };
                portal_auth && status_ok && error_ok
            },
            _ => match json_lookup(members, "success") {
                Some(JsonValue::Bool(b)) => *b,
                _ => false,
            },
        },
        _ => {
            let lowered = to_lowercase(body);
            body_signals_success(lowered.as_str())
        },
    }
}

/// Reads the portal's message from a login reply.
pub fn login_message(payload: Option<&JsonValue>) -> (r: Option<String>)
    ensures
        opt_string_view(r) == login_message_spec(opt_ref(payload)),
{
    match json_member_exec(payload, "message") {
        Some(JsonValue::String(m)) => {
            return Some(m.clone());
        },
        _ => {},
    }
    let data = json_member_exec(payload, "data");
    match json_member_exec(data, "message") {
        Some(JsonValue::String(m)) => Some(m.clone()),
        _ => None,
    }
}

/// What a login reply says: success needs status 200 (OK) and the
/// portal's verdict; the message is the portal's.  The portal's replies
/// name no failure kind.
pub fn interpret_login_reply(status: u16, payload: Option<&JsonValue>, body: &str) -> (r:
    LoginSubmitResult)
    ensures
        r@ == (LoginSubmitResultView {
            success: status == 200 && is_login_success_spec(opt_ref(payload), body@),
            message: login_message_spec(opt_ref(payload)),
            failure_kind: None,
        }),
{
    let success = status == 200 && is_login_success(payload, body);
    let message = login_message(payload);
    LoginSubmitResult { success, message, failure_kind: None }
}

/// serde_json's dynamically typed JSON value.
#[verifier::external_type_specification]
#[verifier::external_body]
pub struct ExSerdeJsonValue(serde_json::Value);

/// What serde_json reads from a text as a JSON value (`None` where the text
/// is no JSON), in the library's form of a value.
pub uninterp spec fn json_parse(text: Seq<char>) -> Option<JsonValue>;

/// Takes serde_json's value apart into the library's form, variant by
/// variant; a number becomes what it is as a 64-bit signed integer.
#[verifier::external_body]
fn json_value_of(v: serde_json::Value) -> JsonValue {
    match v {
        serde_json::Value::Null => JsonValue::Null,
        serde_json::Value::Bool(b) => JsonValue::Bool(b),
        serde_json::Value::Number(n) => JsonValue::Number(n.as_i64()),
        serde_json::Value::String(t) => JsonValue::String(t),
        serde_json::Value::Array(a) => JsonValue::Array(a.into_iter().map(json_value_of).collect()),
        serde_json::Value::Object(m) => JsonValue::Object(
            m.into_iter().map(|(k, x)| (k, json_value_of(x))).collect(),
        ),
    }
}

/// Parses `text` with `serde_json::from_str` into a `serde_json::Value`,
/// `None` where serde_json refuses the text.  The contract claims only that
/// the result depends on the text alone: serde_json's grammar is not
/// restated here.
#[verifier::external_body]
pub fn parse_json(text: &str) -> (r: Option<JsonValue>)
    ensures
        r == json_parse(text@),
{
    serde_json::from_str::<serde_json::Value>(text).ok().map(json_value_of)
}

/// What the portal's reply to a login form says, read from its status and
/// its raw body: the body is read as JSON where it is JSON.
pub fn interpret_login_body(status: u16, body: &str) -> (r: LoginSubmitResult)
    ensures
        r@ == (LoginSubmitResultView {
            success: status == 200 && is_login_success_spec(json_parse(body@), body@),
            message: login_message_spec(json_parse(body@)),
            failure_kind: None,
        }),
{
    let payload = parse_json(body);
    interpret_login_reply(status, payload.as_ref(), body)
}

// ---------------------------------------------------------------------------
// Connectivity probing.
// ---------------------------------------------------------------------------

pub open spec fn probe_url(target: int) -> Seq<char> {
    if target == 0 {
        "http://www.baidu.com"@
    } else {
        "https://www.baidu.com"@
    }
}

/// A probe reply shows open internet access: the status is below 500 and
/// neither the final address nor the body shows the portal intercepting.
pub open spec fn probe_reply_passes_spec(status: u16, final_url: Seq<char>, body: Seq<char>) -> bool {
    probe_passes_lowered(status, lowercase(final_url), lowercase(body))
}

/// A probe reply with the given status, lowercased final address and
/// lowercased body shows open internet access.
pub open spec fn probe_passes_lowered(status: u16, url: Seq<char>, text: Seq<char>) -> bool {
    &&& status < 500
    &&& !has_substring(url, "192.168.200.127"@)
    &&& !has_substring(url, "portalserver"@)
    &&& !has_substring(text, "portalserver"@)
}

/// Whether a probe reply, with its final address and body lowercased,
/// shows open internet access.
pub fn probe_reply_passes_lowered(status: u16, url: &str, text: &str) -> (r: bool)
    ensures
        r == probe_passes_lowered(status, url@, text@),
{
    status < 500 && !str_contains(url, "192.168.200.127") && !str_contains(url, "portalserver")
        && !str_contains(text, "portalserver")
}

/// A reply to a probe request: its status, the address it finally came
/// from, and its body (empty when the body could not be read).
#[derive(Debug)]
pub struct ProbeReply {
    pub status: u16,
    pub final_url: String,
    pub body: String,
}

/// Whether a probe reply shows open internet access.
pub fn probe_reply_passes(reply: &ProbeReply) -> (r: bool)
    ensures
        r == probe_reply_passes_spec(reply.status, reply.final_url@, reply.body@),
{
    let url = to_lowercase(reply.final_url.as_str());
    let text = to_lowercase(reply.body.as_str());
    probe_reply_passes_lowered(reply.status, url.as_str(), text.as_str())
}

#[derive(Clone, Copy, Debug, PartialEq, Eq, Structural)]
pub enum ProbeStage {
    AwaitReply,
    AwaitPause,
    Done,
}

/// The state of a connectivity probe: `rounds` rounds, each trying the two
/// probe addresses in turn, with a pause of `interval_ms` between rounds.
#[derive(Clone, Copy, Debug, PartialEq, Eq, Structural)]
pub struct ProbeRun {
    pub rounds: u32,
    pub interval_ms: u64,
    pub round: u32,
    pub target: usize,
    pub stage: ProbeStage,
}

#[derive(Debug)]
pub enum ProbeAction {
    Get(String),
    Pause(u64),
    Done(bool),
}

pub enum ProbeActionView {
    Get(Seq<char>),
    Pause(u64),
    Done(bool),
}

impl View for ProbeAction {
    type V = ProbeActionView;

    open spec fn view(&self) -> ProbeActionView {
        match self {
            ProbeAction::Get(u) => ProbeActionView::Get(u@),
            ProbeAction::Pause(ms) => ProbeActionView::Pause(*ms),
            ProbeAction::Done(b) => ProbeActionView::Done(*b),
        }
    }
}

/// What the outside work of a probe produced: the reply to the last
/// request (`None` when it failed), or the end of a pause.
#[derive(Debug)]
pub enum ProbeEvent {
    Reply(Option<ProbeReply>),
    Paused,
}

pub enum ProbeEventView {
    /// Whether a reply came, and whether it passed.
    Reply(Option<bool>),
    Paused,
}

impl View for ProbeEvent {
    type V = ProbeEventView;

    open spec fn view(&self) -> ProbeEventView {
        match self {
            ProbeEvent::Reply(Some(r)) => ProbeEventView::Reply(
                Some(probe_reply_passes_spec(r.status, r.final_url@, r.body@)),
            ),
            ProbeEvent::Reply(None) => ProbeEventView::Reply(None),
            ProbeEvent::Paused => ProbeEventView::Paused,
        }
    }
}

/// The start of a probe.
pub open spec fn probe_start_spec(rounds: u32, interval_ms: u64) -> (ProbeRun, ProbeActionView) {
    if rounds == 0 {
        (
            ProbeRun { rounds, interval_ms, round: 0, target: 0, stage: ProbeStage::Done },
            ProbeActionView::Done(false),
        )
    } else {
        (
            ProbeRun { rounds, interval_ms, round: 1, target: 0, stage: ProbeStage::AwaitReply },
            ProbeActionView::Get(probe_url(0)),
        )
    }
}

/// One decision of a probe.
pub open spec fn probe_step_spec(s: ProbeRun, e: ProbeEventView) -> (ProbeRun, ProbeActionView) {
    match e {
        ProbeEventView::Reply(r) => {
            if r == Some(true) {
                (ProbeRun { stage: ProbeStage::Done, ..s }, ProbeActionView::Done(true))
            } else if s.target == 0 {
                (ProbeRun { target: 1, ..s }, ProbeActionView::Get(probe_url(1)))
            } else if s.round < s.rounds {
                (ProbeRun { stage: ProbeStage::AwaitPause, ..s }, ProbeActionView::Pause(s.interval_ms))
            } else {
                (ProbeRun { stage: ProbeStage::Done, ..s }, ProbeActionView::Done(false))
            }
        },
        ProbeEventView::Paused => (
            ProbeRun {
                round: (s.round + 1) as u32,
                target: 0,
                stage: ProbeStage::AwaitReply,
                ..s
            },
            ProbeActionView::Get(probe_url(0)),
        ),
    }
}

/// The states a probe can be in.
pub open spec fn probe_wf(s: ProbeRun) -> bool {
    &&& s.stage != ProbeStage::Done ==> 1 <= s.round <= s.rounds
    &&& s.target < 2
    &&& s.stage == ProbeStage::AwaitPause ==> s.round < s.rounds && s.target == 1
}

/// The event is the one the probe waits for.
pub open spec fn probe_expects(s: ProbeRun, e: ProbeEventView) -> bool {
    match e {
        ProbeEventView::Reply(_) => s.stage == ProbeStage::AwaitReply,
        ProbeEventView::Paused => s.stage == ProbeStage::AwaitPause,
    }
}

fn probe_address(target: usize) -> (u: String)
    ensures
        u@ == probe_url(target as int),
{
    if target == 0 {
        String::from_str("http://www.baidu.com")
    } else {
        String::from_str("https://www.baidu.com")
    }
}

impl ProbeRun {
    /// Starts a probe of `rounds` rounds.
    pub fn start(rounds: u32, interval_ms: u64) -> (r: (ProbeRun, ProbeAction))
        ensures
            (r.0, r.1@) == probe_start_spec(rounds, interval_ms),
            probe_wf(r.0),
    {
        if rounds == 0 {
            (
                ProbeRun { rounds, interval_ms, round: 0, target: 0, stage: ProbeStage::Done },
                ProbeAction::Done(false),
            )
        } else {
            (
                ProbeRun { rounds, interval_ms, round: 1, target: 0, stage: ProbeStage::AwaitReply },
                ProbeAction::Get(probe_address(0)),
            )
        }
    }

    /// Whether the state is one a probe can be in.
    pub fn is_consistent(&self) -> (b: bool)
        ensures
            b == probe_wf(*self),
    {
        (self.stage == ProbeStage::Done || (1 <= self.round && self.round <= self.rounds))
            && self.target < 2 && (self.stage != ProbeStage::AwaitPause || (self.round < self.rounds
            && self.target == 1))
    }

    /// Whether the probe waits for `event`.
    pub fn expects(&self, event: &ProbeEvent) -> (b: bool)
        ensures
            b == probe_expects(*self, event@),
    {
        match event {
            ProbeEvent::Reply(_) => self.stage == ProbeStage::AwaitReply,
            ProbeEvent::Paused => self.stage == ProbeStage::AwaitPause,
        }
    }

    /// Takes the outcome of the requested work and decides what comes next.
    pub fn step(&mut self, event: ProbeEvent) -> (a: ProbeAction)
        requires
            probe_wf(*old(self)),
            probe_expects(*old(self), event@),
        ensures
            (*final(self), a@) == probe_step_spec(*old(self), event@),
    {
        match event {
            ProbeEvent::Reply(r) => {
                let passed = match &r {
                    Some(reply) => probe_reply_passes(reply),
                    None => false,
                };
                if passed {
                    self.stage = ProbeStage::Done;
                    ProbeAction::Done(true)
                } else if self.target == 0 {
                    self.target = 1;
                    ProbeAction::Get(probe_address(1))
                } else if self.round < self.rounds {
                    self.stage = ProbeStage::AwaitPause;
                    ProbeAction::Pause(self.interval_ms)
                } else {
                    self.stage = ProbeStage::Done;
                    ProbeAction::Done(false)
                }
            },
            ProbeEvent::Paused => {
                self.round = self.round + 1;
                self.target = 0;
                self.stage = ProbeStage::AwaitReply;
                ProbeAction::Get(probe_address(0))
            },
        }
    }
}

/// Work left in a probe: rounds left, then requests left in the round.
pub open spec fn probe_remaining(s: ProbeRun) -> int {
    (s.rounds - s.round) * 4 + match s.stage {
        ProbeStage::AwaitReply => 3 - s.target,
        ProbeStage::AwaitPause => 1,
        ProbeStage::Done => 0,
    }
}

/// Every probe ends: each step keeps the probe valid and either ends it or
/// lowers the work left, which never goes below zero; and a probe answers
/// `true` only on a reply that passed.
pub proof fn lemma_probe_step(s: ProbeRun, e: ProbeEventView)
    requires
        probe_wf(s),
        probe_expects(s, e),
    ensures
        probe_wf(probe_step_spec(s, e).0),
        probe_remaining(s) >= 0,
        probe_step_spec(s, e).0.stage == ProbeStage::Done || 0 <= probe_remaining(
            probe_step_spec(s, e).0,
        ) < probe_remaining(s),
        probe_step_spec(s, e).1 matches ProbeActionView::Done(true) ==> e == ProbeEventView::Reply(
            Some(true),
        ),
        (probe_step_spec(s, e).0.stage == ProbeStage::Done) <==> (probe_step_spec(s, e).1 is Done),
{
}

// ---------------------------------------------------------------------------
// Laws.
// ---------------------------------------------------------------------------

/// The portal's verdict on a reply that is a JSON object with a `data`
/// object: the login succeeded exactly when `data.portalAuth` is true,
/// `data.portalAuthStatus` is the number 0, and `data.portalErrorCode` is
/// absent, null or the number 0.  On an object without a `data` object it
/// succeeded exactly when its `success` is true; the text of a JSON object
/// is never searched.  A reply that is no JSON succeeded exactly when its
/// lowercased text holds `success.jsp`, `"success":true` or `"code":0`.
pub proof fn lemma_login_verdict(
    members: Vec<(String, JsonValue)>,
    data: Vec<(String, JsonValue)>,
    body: Seq<char>,
)
    ensures
        json_get(members@, "data"@) == Some(JsonValue::Object(data)) ==> (is_login_success_spec(
            Some(JsonValue::Object(members)),
            body,
        ) <==> (json_get(data@, "portalAuth"@) == Some(JsonValue::Bool(true)) && json_get(
            data@,
            "portalAuthStatus"@,
        ) == Some(JsonValue::Number(Some(0i64))) && (json_get(data@, "portalErrorCode"@) is None
            || json_get(data@, "portalErrorCode"@) == Some(JsonValue::Null) || json_get(
            data@,
            "portalErrorCode"@,
        ) == Some(JsonValue::Number(Some(0i64)))))),
        !(json_get(members@, "data"@) matches Some(JsonValue::Object(_))) ==> (
        is_login_success_spec(Some(JsonValue::Object(members)), body) <==> json_get(
            members@,
            "success"@,
        ) == Some(JsonValue::Bool(true))),
        (is_login_success_spec(None, body) <==> (has_substring(lowercase(body), "success.jsp"@)
            || has_substring(lowercase(body), "\"success\":true"@) || has_substring(
            lowercase(body),
            "\"code\":0"@,
        ))),
{
}

/// The summary of an address is a prefix of it with no query left.
pub proof fn lemma_summary_has_no_query(url: Seq<char>)
    ensures
        summarize_url_spec(url).is_prefix_of(url),
        forall|i: int| 0 <= i < summarize_url_spec(url).len() ==> #[trigger] summarize_url_spec(url)[i]
            != '?',
{
    lemma_find_char(url, '?');
}

proof fn lemma_cookie_token(value: Option<Seq<char>>)
    ensures
        xsrf_of_cookie(value) matches Some(t) ==> t.len() > 0 && forall|i: int|
            0 <= i < t.len() ==> #[trigger] t[i] != ';',
{
    if let Some(v) = value {
        lemma_find_char(v.skip(11), ';');
    }
}

/// A token taken from cookies is never empty and never holds a ';'.
pub proof fn lemma_xsrf_token_shape(values: Seq<Option<Seq<char>>>)
    ensures
        first_xsrf(values) matches Some(t) ==> t.len() > 0 && forall|i: int|
            0 <= i < t.len() ==> #[trigger] t[i] != ';',
    decreases values.len(),
{
    if values.len() > 0 {
        lemma_cookie_token(values[0]);
        lemma_xsrf_token_shape(values.drop_first());
    }
}

} // verus!
