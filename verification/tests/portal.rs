use ezlogin::portal::{
    android_http_fallback_url, body_signals_success, probe_reply_passes_lowered, check_captcha_image, check_captcha_status, fallback_failure_message,
    https_to_http, interpret_login_body, interpret_login_reply, is_login_success, parse_json, login_message, probe_reply_passes,
    request_failure_message, summarize_url, HttpMethod, JsonValue, PortalClient, ProbeAction,
    ProbeEvent, ProbeReply, ProbeRun, RequestHeader, RequestTarget,
};

const QUERY: &str = "isPasscode=N&browserFlag=zh&folderName=1606381611261%2Fpc&httpsFlag=Y&publicBarcodeEncode=null&ssid=edu_classroom&url=http%3A%2F%2Fwww.msftconnecttest.com%2Fredirect&authSuccess=2&redirectUrl=&urlParameter=http%3A%2F%2Fwww.msftconnecttest.com%2Fredirect&currentTime=1700000000000&authislogoff=true";

fn client() -> PortalClient {
    PortalClient::new("u1".to_string(), "p1".to_string(), 10, "1700000000000")
}

fn obj(members: Vec<(&str, JsonValue)>) -> JsonValue {
    JsonValue::Object(members.into_iter().map(|(k, v)| (k.to_string(), v)).collect())
}

#[test]
fn portal_addresses() {
    let c = client();
    assert_eq!(c.base_url, "https://192.168.200.127:8445");
    assert_eq!(c.auth_url, format!("https://192.168.200.127:8445/PortalServer/customize/1606381611261/pc/auth.jsp?{QUERY}"));
    assert_eq!(c.success_url, format!("https://192.168.200.127:8445/PortalServer/customize/1606381611261/pc/success.jsp?{QUERY}"));
    assert_eq!(c.custom_page_config_id, "ff808081760371a1017603ce291b008d");
    assert!(c.xsrf_token.is_none());
}

#[test]
fn captcha_address_is_stamped() {
    let c = client();
    assert_eq!(
        c.valid_code_url("Mon Jan 01 2024 10:00:00 GMT+0800 (China Standard Time)"),
        "/PortalServer/validCodeImg?date=Mon+Jan+01+2024+10%3A00%3A00+GMT%2B0800+%28China+Standard+Time%29&includeLetter=true&folderName=1606381611261%2Fpc&httpsFlag=Y"
    );
}

#[test]
fn resolving_addresses() {
    let c = client();
    assert_eq!(c.resolve_url("/a/b"), "https://192.168.200.127:8445/a/b");
    assert_eq!(c.resolve_url("http://x/y"), "http://x/y");
    assert_eq!(summarize_url("https://h/p?q=1?r"), "https://h/p");
    assert_eq!(summarize_url("https://h/p"), "https://h/p");
}

#[test]
fn android_fallback_addresses() {
    assert_eq!(
        android_http_fallback_url("https://h:1/p?httpsFlag=Y&x=httpsFlag=Y").unwrap(),
        "http://h:1/p?httpsFlag=N&x=httpsFlag=N"
    );
    assert!(android_http_fallback_url("http://h/p").is_none());
    assert_eq!(https_to_http("https://h").unwrap(), "http://h");
    assert!(https_to_http("ftp://h").is_none());
}

#[test]
fn failure_messages() {
    assert_eq!(
        request_failure_message("timeout", "https://h/p?secret=1"),
        "http request failed: timeout; endpoint=https://h/p"
    );
    assert_eq!(
        fallback_failure_message("a", "b", "https://h/p?x"),
        "http request failed: a; fallback failed: b; endpoint=https://h/p"
    );
}

#[test]
fn xsrf_token_from_cookies() {
    let mut c = client();
    c.sync_xsrf_from_headers(&vec![None, Some("JSESSIONID=1".to_string()), Some("XSRF-TOKEN=;x".to_string())]);
    assert!(c.xsrf_token.is_none());
    c.sync_xsrf_from_headers(&vec![Some("XSRF-TOKEN=abc; Path=/".to_string()), Some("XSRF-TOKEN=def".to_string())]);
    assert_eq!(c.xsrf_token.as_deref(), Some("abc"));
    c.sync_xsrf_from_headers(&vec![Some("other=1".to_string())]);
    assert_eq!(c.xsrf_token.as_deref(), Some("abc"));
    c.sync_xsrf_from_headers(&vec![Some("XSRF-TOKEN=zz".to_string())]);
    assert_eq!(c.xsrf_token.as_deref(), Some("zz"));
}

#[test]
fn session_plan() {
    let c = client();
    let stages = c.init_session_plan();
    assert_eq!(stages.iter().map(|s| s.len()).collect::<Vec<_>>(), vec![1, 3, 1, 1, 1]);
    let assets: Vec<String> = stages[1]
        .iter()
        .map(|r| match &r.target {
            RequestTarget::Address(a) => a.clone(),
            other => panic!("{:?}", other),
        })
        .collect();
    assert_eq!(
        assets,
        vec![
            "/PortalServer/material/custom/custom.css",
            "/PortalServer/material/custom/auth.js",
            "/PortalServer/material/custom/lang/auth-zh.js",
        ]
    );
    let plan: Vec<_> = stages.into_iter().flatten().collect();
    assert_eq!(plan.len(), 7);
    assert!(matches!(&plan[0].target, RequestTarget::Address(a) if *a == c.auth_url));
    assert!(matches!(plan[4].target, RequestTarget::CaptchaImage));
    assert_eq!(plan[5].method, HttpMethod::Post);
    assert!(plan[5].ajax);
    assert_eq!(plan[5].form.as_ref().unwrap(), &vec![("customPageConfigId".to_string(), "ff808081760371a1017603ce291b008d".to_string())]);
    assert!(plan[6].ajax && plan[6].form.is_none() && plan[6].method == HttpMethod::Get);
    assert!(plan.iter().all(|r| r.referer == c.auth_url));
    let sync = c.post_login_sync_plan();
    assert_eq!(sync.len(), 3);
    assert_eq!(sync[2].referer, c.success_url);
    assert!(matches!(&sync[0].target, RequestTarget::Address(a) if *a == c.success_url));
}

#[test]
fn login_request_form() {
    let c = client();
    let r = c.login_request("b5BH");
    assert_eq!(r.method, HttpMethod::Post);
    assert!(matches!(&r.target, RequestTarget::Address(a) if a == "/PortalServer/Webauth/webAuthAction!login.action"));
    let form = r.form.unwrap();
    assert_eq!(form.len(), 22);
    assert_eq!(form[1], ("userName".to_string(), "u1".to_string()));
    assert_eq!(form[2], ("password".to_string(), "p1".to_string()));
    assert_eq!(form[3], ("validCode".to_string(), "b5BH".to_string()));
    assert_eq!(form[21], ("isAgreeCheck".to_string(), "1".to_string()));
}

#[test]
fn login_verdicts() {
    let good = obj(vec![(
        "data",
        obj(vec![
            ("portalAuth", JsonValue::Bool(true)),
            ("portalAuthStatus", JsonValue::Number(Some(0))),
            ("portalErrorCode", JsonValue::Null),
        ]),
    )]);
    assert!(is_login_success(Some(&good), ""));
    let bad = obj(vec![(
        "data",
        obj(vec![
            ("portalAuth", JsonValue::Bool(true)),
            ("portalAuthStatus", JsonValue::Number(Some(0))),
            ("portalErrorCode", JsonValue::Number(Some(5))),
            ("message", JsonValue::String("验证码错误".to_string())),
        ]),
    )]);
    assert!(!is_login_success(Some(&bad), "success.jsp"));
    assert_eq!(login_message(Some(&bad)).as_deref(), Some("验证码错误"));
    let flag = obj(vec![("success", JsonValue::Bool(true)), ("message", JsonValue::String("ok".to_string()))]);
    assert!(is_login_success(Some(&flag), ""));
    assert_eq!(login_message(Some(&flag)).as_deref(), Some("ok"));
    assert!(is_login_success(None, "<a href=\"Success.JSP\">"));
    assert!(is_login_success(Some(&JsonValue::Array(vec![])), "{\"code\":0}"));
    assert!(!is_login_success(None, "nope"));
    let r = interpret_login_reply(500, Some(&good), "");
    assert!(!r.success);
    let r = interpret_login_reply(200, Some(&good), "");
    assert!(r.success && r.message.is_none() && r.failure_kind.is_none());
}

#[test]
fn captcha_checks() {
    assert!(check_captcha_status(200, "200 OK").is_ok());
    assert_eq!(check_captcha_status(404, "404 Not Found").unwrap_err(), "failed to fetch captcha image: 404 Not Found");
    assert_eq!(check_captcha_image(&[]).unwrap_err(), "captcha image is empty");
    assert!(check_captcha_image(&[1]).is_ok());
}

fn reply(status: u16, url: &str, body: &str) -> ProbeReply {
    ProbeReply { status, final_url: url.to_string(), body: body.to_string() }
}

#[test]
fn probe_verdicts() {
    assert!(probe_reply_passes(&reply(200, "https://www.baidu.com/", "<html>")));
    assert!(!probe_reply_passes(&reply(502, "https://www.baidu.com/", "")));
    assert!(!probe_reply_passes(&reply(200, "https://192.168.200.127:8445/x", "")));
    assert!(!probe_reply_passes(&reply(200, "https://h/PortalServer/x", "")));
    assert!(!probe_reply_passes(&reply(200, "https://h/", "window.location='/PORTALSERVER'")));
}

#[test]
fn probe_runs() {
    let (_, a) = ProbeRun::start(0, 1200);
    assert!(matches!(a, ProbeAction::Done(false)));

    let (mut p, a) = ProbeRun::start(3, 1200);
    assert!(matches!(&a, ProbeAction::Get(u) if u == "http://www.baidu.com"));
    let a = p.step(ProbeEvent::Reply(Some(reply(200, "http://www.baidu.com/", ""))));
    assert!(matches!(a, ProbeAction::Done(true)));

    let (mut p, _) = ProbeRun::start(2, 700);
    assert!(matches!(p.step(ProbeEvent::Reply(None)), ProbeAction::Get(u) if u == "https://www.baidu.com"));
    assert!(matches!(p.step(ProbeEvent::Reply(Some(reply(500, "x", "")))), ProbeAction::Pause(700)));
    assert!(p.expects(&ProbeEvent::Paused));
    assert!(matches!(p.step(ProbeEvent::Paused), ProbeAction::Get(_)));
    p.step(ProbeEvent::Reply(None));
    assert!(matches!(p.step(ProbeEvent::Reply(None)), ProbeAction::Done(false)));
}

#[test]
fn summaries_have_no_query() {
    for url in ["https://h/p?a=1", "x?", "?", "no-query"] {
        let s = summarize_url(url);
        assert!(url.starts_with(&s));
        assert!(!s.contains('?'));
    }
}

#[test]
fn lowered_text_verdicts() {
    assert!(body_signals_success("location: /success.jsp"));
    assert!(body_signals_success("{\"success\":true}"));
    assert!(!body_signals_success("{\"success\": true}"));
    assert!(probe_reply_passes_lowered(499, "https://www.baidu.com/", ""));
    assert!(!probe_reply_passes_lowered(500, "https://www.baidu.com/", ""));
    assert!(!probe_reply_passes_lowered(200, "https://x/", "portalserver"));
}

#[test]
fn json_texts_are_parsed() {
    assert!(parse_json("not json").is_none());
    match parse_json("{\"a\": [1, -2, 1.5, null, true], \"b\": \"x\"}") {
        Some(JsonValue::Object(m)) => {
            assert_eq!(m.len(), 2);
            assert_eq!(m[0].0, "a");
            match &m[0].1 {
                JsonValue::Array(items) => {
                    assert!(matches!(items[0], JsonValue::Number(Some(1))));
                    assert!(matches!(items[1], JsonValue::Number(Some(-2))));
                    assert!(matches!(items[2], JsonValue::Number(None)));
                    assert!(matches!(items[3], JsonValue::Null));
                    assert!(matches!(items[4], JsonValue::Bool(true)));
                }
                other => panic!("{:?}", other),
            }
            assert_eq!(m[1].0, "b");
            assert!(matches!(&m[1].1, JsonValue::String(t) if t == "x"));
        }
        other => panic!("{:?}", other),
    }
}

#[test]
fn login_bodies_are_read() {
    let good = "{\"data\":{\"portalAuth\":true,\"portalAuthStatus\":0,\"portalErrorCode\":null}}";
    let r = interpret_login_body(200, good);
    assert!(r.success && r.message.is_none() && r.failure_kind.is_none());
    assert!(!interpret_login_body(302, good).success);
    let bad = "{\"data\":{\"portalAuth\":true,\"portalAuthStatus\":0,\"portalErrorCode\":5,\"message\":\"验证码错误\"}}";
    let r = interpret_login_body(200, bad);
    assert!(!r.success);
    assert_eq!(r.message.as_deref(), Some("验证码错误"));
    let flag = "{\"success\":true,\"message\":\"ok\"}";
    let r = interpret_login_body(200, flag);
    assert!(r.success);
    assert_eq!(r.message.as_deref(), Some("ok"));
    // Not JSON: the text itself is searched.
    assert!(interpret_login_body(200, "<a href=\"Success.JSP\">").success);
    assert!(!interpret_login_body(200, "<html>fail</html>").success);
    // A JSON object without the portal's fields is no success, whatever its text.
    assert!(!interpret_login_body(200, "{\"note\":\"success.jsp\"}").success);
}

fn pairs(h: &[RequestHeader]) -> Vec<(&str, &str, Option<&str>)> {
    h.iter().map(|h| (h.name.as_str(), h.value.as_str(), h.refusal.as_deref())).collect()
}

#[test]
fn request_headers_in_order() {
    let mut c = client();
    assert!(c.request_headers(false, None).is_empty());
    let plain = c.request_headers(false, Some("https://h/r"));
    assert_eq!(pairs(&plain), vec![("referer", "https://h/r", Some("invalid referer"))]);
    c.xsrf_token = Some("tok".to_string());
    let h = c.request_headers(true, Some("https://h/r"));
    let base = c.base_url.clone();
    assert_eq!(
        pairs(&h),
        vec![
            ("accept", "*/*", None),
            ("content-type", "application/x-www-form-urlencoded; charset=UTF-8", None),
            ("origin", base.as_str(), Some("invalid origin")),
            ("x-requested-with", "XMLHttpRequest", None),
            ("referer", "https://h/r", Some("invalid referer")),
            ("x-xsrf-token", "tok", Some("invalid xsrf token")),
        ]
    );
}
