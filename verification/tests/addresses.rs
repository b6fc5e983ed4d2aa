use http::{HeaderMap, HeaderValue};
use tauri_runtime_cef::browser_slot::{BrowserSlot, BrowserSlots};
use tauri_runtime_cef::cef_calls::CallSequence;
use tauri_runtime_cef::client::ResourceRequestPayload;
use tauri_runtime_cef::runtime::cookies::{
    cef_cookie_to_tauri, clear_all_browsing_data, collect_cookies, cookie_deleted, cookie_set,
    delete_cookie, get_cookie_manager, query_started, set_cookie, tauri_cookie_to_cef, CefCookie,
    ClearBrowsingData, CollectCookiesVisitor, CookieManager, CookieQuery, ManagerSearch, WebCookie,
    COOKIE_WAIT_MILLIS,
};
use tauri_runtime_cef::runtime::preferences::{
    apply_proxy_preference, create_request_context_for_webview, set_string_preference,
    RequestContextAttributes,
};
use tauri_runtime_cef::runtime::urls::{
    cookie_url_from, normalize_cef_initial_url, protocol_name_from_url, proxy_server_of,
};
use tauri_runtime_cef::runtime::web::{
    apply_cors_headers_for_custom_protocol, eq_ignore_ascii_case, fallback_uri_for, ipc_request,
    parse_url, resource_request_to_http_request, timeout_response, HttpResponse,
};
use tauri_runtime_cef::runtime::webview_error::WebviewError;

fn calls_of(mut calls: CallSequence) -> Vec<String> {
    let mut made = Vec::new();
    while let Some(call) = calls.current() {
        made.push(format!("{call:?}"));
        calls.report(1);
    }
    made
}

#[test]
fn urls_are_taken_apart() {
    let url = parse_url("HTTPS://Tauri.App:8080/a b?q=1#top").unwrap();
    assert_eq!(url.text, "https://tauri.app:8080/a%20b?q=1#top");
    assert_eq!(url.scheme, "https");
    assert_eq!(url.host.as_deref(), Some("tauri.app"));
    assert_eq!(url.port, Some(8080));
    assert_eq!(url.path, "/a%20b");
    assert_eq!(url.query.as_deref(), Some("q=1"));
    assert_eq!(url.fragment.as_deref(), Some("top"));
    assert_eq!(parse_url("https://tauri.app").unwrap().port, Some(443));
    assert!(parse_url("no url").is_none());
}

#[test]
fn pages_of_the_application_get_a_host_of_their_own() {
    assert_eq!(
        normalize_cef_initial_url("tauri://localhost/index.html?a=1#b", true),
        "https://tauri.localhost/index.html?a=1#b"
    );
    assert_eq!(
        normalize_cef_initial_url("tauri://localhost", false),
        "http://tauri.localhost"
    );
    assert_eq!(normalize_cef_initial_url("https://tauri.app", true), "https://tauri.app");
    assert_eq!(normalize_cef_initial_url("tauri://other/x", true), "tauri://other/x");
    assert_eq!(normalize_cef_initial_url("no url", true), "no url");
}

#[test]
fn protocols_are_named_by_scheme_or_host() {
    let name = |url: &str| protocol_name_from_url(&parse_url(url).unwrap());
    assert_eq!(name("ipc://localhost/x").as_deref(), Some("ipc"));
    assert_eq!(name("http://ipc.localhost/x").as_deref(), Some("ipc"));
    assert_eq!(name("https://asset.localhost/").as_deref(), Some("asset"));
    assert_eq!(name("https://tauri.app/"), None);
    assert_eq!(name("https://localhost/"), None);
}

#[test]
fn cookies_are_kept_under_their_domain_or_the_page() {
    assert_eq!(
        cookie_url_from(Some("..tauri.app"), None).as_deref(),
        Some("https://tauri.app/")
    );
    assert_eq!(
        cookie_url_from(Some("."), Some("https://page.app/x")).as_deref(),
        Some("https://page.app/x")
    );
    assert_eq!(
        cookie_url_from(None, Some("https://page.app")).as_deref(),
        Some("https://page.app/")
    );
    assert_eq!(cookie_url_from(None, Some("no url")), None);
    assert_eq!(cookie_url_from(None, None), None);
}

#[test]
fn proxies_are_named_with_their_port() {
    let server = |url: &str| proxy_server_of(&parse_url(url).unwrap());
    assert_eq!(server("http://proxy:3128").as_deref(), Some("http://proxy:3128"));
    assert_eq!(server("https://proxy").as_deref(), Some("https://proxy:443"));
    assert_eq!(server("socks5://proxy").as_deref(), Some("socks5://proxy"));
    assert_eq!(server("data:x"), None);
}

#[test]
fn a_proxy_gets_all_traffic() {
    let made = calls_of(apply_proxy_preference(&parse_url("http://proxy:3128").unwrap()));
    assert_eq!(made[0], "CreateDictionary");
    assert!(made[1].contains("\"mode\"") && made[1].contains("\"fixed_servers\""));
    assert!(made[2].contains("\"server\"") && made[2].contains("\"http://proxy:3128\""));
    assert!(made[3].contains("\"bypass_list\"") && made[3].contains("\"<-loopback>\""));
    assert_eq!(made[7], "SetPreference(\"proxy\")");
    let none = apply_proxy_preference(&parse_url("data:x").unwrap());
    assert_eq!(none.outcome(), Some(false));
}

#[test]
fn preferences_are_asked_for_before_they_are_set() {
    let made = calls_of(set_string_preference("name", "value"));
    let asked = made.iter().position(|call| call == "CanSetPreference(\"name\")").unwrap();
    let set = made.iter().position(|call| call == "SetPreference(\"name\")").unwrap();
    assert!(asked < set);
}

#[test]
fn a_plain_webview_needs_no_context_of_its_own() {
    let attributes = |incognito: bool, user_agent: Option<&str>, proxy: Option<&str>| {
        RequestContextAttributes {
            incognito,
            user_agent: user_agent.map(str::to_string),
            proxy_url: proxy.map(|proxy| parse_url(proxy).unwrap()),
        }
    };
    assert!(create_request_context_for_webview(&attributes(false, None, None)).is_none());
    let own = create_request_context_for_webview(&attributes(true, None, None));
    assert!(own.unwrap().is_empty());
    let both = create_request_context_for_webview(&attributes(
        false,
        Some("agent"),
        Some("http://proxy:1"),
    ));
    assert_eq!(both.unwrap().len(), 2);
}

fn payload(url: &str, method: &str, headers: &[(&str, &str)]) -> ResourceRequestPayload {
    ResourceRequestPayload {
        url: url.to_string(),
        method: method.to_string(),
        headers: headers
            .iter()
            .map(|(name, value)| (name.to_string(), value.to_string()))
            .collect(),
        body: b"body".to_vec(),
    }
}

#[test]
fn requests_carry_what_can_be_carried() {
    let request = resource_request_to_http_request(&payload(
        "http://ipc.localhost/x?y=1",
        "POST",
        &[("Accept", "text/html"), ("bad name", "x"), ("X", "bad\nvalue"), ("accept", "last")],
    ))
    .unwrap();
    assert_eq!(request.method, "POST");
    assert_eq!(request.uri, "http://ipc.localhost/x?y=1");
    assert_eq!(request.headers.len(), 1);
    assert_eq!(request.headers.get("accept").unwrap(), "last");
    assert_eq!(request.body, b"body");
    assert!(resource_request_to_http_request(&payload("http://a/", "BAD METHOD", &[])).is_none());
}

#[test]
fn urls_that_are_no_uris_get_a_stand_in() {
    let url = parse_url("ipc://localhost/x?y=1").unwrap();
    assert_eq!(fallback_uri_for(&url), "http://localhost/x?y=1");
    assert!(resource_request_to_http_request(&payload("no url", "GET", &[])).is_none());
}

#[test]
fn messages_of_pages_become_requests() {
    let request = ipc_request("https://tauri.app/page".to_string(), "{\"a\":1}".to_string());
    let request = request.unwrap();
    assert_eq!(request.method, "POST");
    assert_eq!(request.uri, "https://tauri.app/page");
    assert_eq!(request.headers.get("content-type").unwrap(), "application/json");
    assert_eq!(request.body, b"{\"a\":1}");
    assert!(ipc_request("no uri".to_string(), String::new()).is_none());
}

fn response(headers: HeaderMap<HeaderValue>) -> HttpResponse {
    HttpResponse { status: 200, headers, body: Vec::new() }
}

#[test]
fn responses_may_be_read_by_the_page_that_asked() {
    let request = payload("ipc://localhost", "options", &[("ORIGIN", "https://page.app")]);
    let mut answer = response(HeaderMap::new());
    assert!(apply_cors_headers_for_custom_protocol(&request, &mut answer));
    assert_eq!(
        answer.headers.get("access-control-allow-origin").unwrap(),
        "https://page.app"
    );
    assert_eq!(answer.headers.get("access-control-allow-headers").unwrap(), "*");
    assert_eq!(answer.headers.get("access-control-expose-headers").unwrap(), "*");
    assert_eq!(answer.status, 200);
}

#[test]
fn what_a_response_allows_itself_is_kept() {
    let request = payload("ipc://localhost", "GET", &[]);
    let mut headers = HeaderMap::new();
    headers.insert("access-control-allow-origin", HeaderValue::from_static("https://own.app"));
    let mut answer = response(headers);
    assert!(apply_cors_headers_for_custom_protocol(&request, &mut answer));
    assert_eq!(answer.headers.get("access-control-allow-origin").unwrap(), "https://own.app");
    assert!(answer.headers.get("access-control-allow-headers").is_none());

    let mut answer = response(HeaderMap::new());
    assert!(apply_cors_headers_for_custom_protocol(&request, &mut answer));
    assert_eq!(answer.headers.get("access-control-allow-origin").unwrap(), "*");
}

/// As many headers as asked for, under names of their own.
fn many_headers(count: usize) -> Vec<(String, String)> {
    (0..count).map(|index| (format!("x-{index}"), "value".to_string())).collect()
}

#[test]
fn responses_with_many_headers_may_be_read_too() {
    let request = payload("ipc://localhost", "GET", &[]);
    for count in [6551usize, 8000] {
        let mut headers = HeaderMap::new();
        for (name, value) in many_headers(count) {
            let name = http::HeaderName::from_bytes(name.as_bytes()).unwrap();
            headers.insert(name, HeaderValue::from_str(&value).unwrap());
        }
        let mut answer = response(headers);
        assert!(apply_cors_headers_for_custom_protocol(&request, &mut answer));
        assert_eq!(answer.headers.len(), count + 2);
    }
}

#[test]
fn requests_have_as_many_headers_as_fit() {
    let with_headers = |count: usize| {
        let mut request = payload("http://a/", "GET", &[]);
        request.headers = many_headers(count);
        resource_request_to_http_request(&request)
    };
    assert_eq!(with_headers(6553).unwrap().headers.len(), 6553);
    assert_eq!(with_headers(8000).unwrap().headers.len(), 8000);
    assert!(with_headers(40_000).is_none());
}

#[test]
fn a_protocol_that_does_not_answer_times_out() {
    let answer = timeout_response();
    assert_eq!(answer.status, 504);
    assert!(answer.headers.is_empty());
    assert!(answer.body.is_empty());
    assert!(eq_ignore_ascii_case("Origin", "oRIGIN"));
    assert!(!eq_ignore_ascii_case("Origin", "Origins"));
}

fn cookie(domain: Option<&str>, path: Option<&str>) -> WebCookie {
    WebCookie {
        name: "name".to_string(),
        value: "value".to_string(),
        domain: domain.map(str::to_string),
        path: path.map(str::to_string),
        secure: Some(true),
        http_only: None,
    }
}

#[test]
fn cookies_survive_the_way_to_cef_and_back() {
    let sent = tauri_cookie_to_cef(&cookie(Some("tauri.app"), None));
    assert_eq!((sent.domain.as_str(), sent.path.as_str()), ("tauri.app", "/"));
    assert_eq!((sent.secure, sent.httponly), (1, 0));
    let back = cef_cookie_to_tauri(&sent);
    assert_eq!((back.name.as_str(), back.value.as_str()), ("name", "value"));
    assert_eq!(back.domain.as_deref(), Some("tauri.app"));
    assert_eq!((back.secure, back.http_only), (Some(true), Some(false)));
    let empty = CefCookie {
        name: String::new(),
        value: String::new(),
        domain: String::new(),
        path: String::new(),
        secure: 0,
        httponly: 1,
    };
    let back = cef_cookie_to_tauri(&empty);
    assert_eq!((back.domain, back.path), (None, None));
}

#[test]
fn the_dot_before_a_domain_is_not_part_of_it() {
    let domain = |domain: &str| {
        let mut sent = tauri_cookie_to_cef(&cookie(None, None));
        sent.domain = domain.to_string();
        cef_cookie_to_tauri(&sent).domain
    };
    assert_eq!(domain(".tauri.app").as_deref(), Some("tauri.app"));
    assert_eq!(domain("..tauri.app").as_deref(), Some(".tauri.app"));
    assert_eq!(domain("tauri.app").as_deref(), Some("tauri.app"));
    assert_eq!(COOKIE_WAIT_MILLIS, 60);
}

#[test]
fn the_end_of_a_visit_is_signalled_once() {
    let mut visitor = CollectCookiesVisitor::new();
    let first = tauri_cookie_to_cef(&cookie(None, None));
    assert_eq!(visitor.visit(Some(&first), 0, 2), (1, false));
    assert_eq!(visitor.visit(Some(&first), 1, 2), (1, true));
    assert_eq!(visitor.visit(None, 1, 2), (1, false));
    assert_eq!(visitor.items.len(), 2);
}

/// An empty slot and one with a browser.
fn slots() -> (BrowserSlots, BrowserSlot, BrowserSlot) {
    let mut browsers = BrowserSlots::new();
    let empty = BrowserSlot::new(&mut browsers);
    let full = BrowserSlot::new(&mut browsers);
    full.set(&mut browsers, Some(1));
    (browsers, empty, full)
}

#[test]
fn the_own_store_of_a_browser_comes_first() {
    let (browsers, empty, full) = slots();
    let search = get_cookie_manager(&browsers, &full);
    let search = search.answered(true).answered(true).answered(true);
    assert!(matches!(search.result(), Some(Ok(_))));
    let search = get_cookie_manager(&browsers, &empty);
    assert_eq!(search, ManagerSearch::AskGlobalManager);
    assert_eq!(
        search.answered(true).result(),
        Some(Ok(CookieManager::Global))
    );
    assert_eq!(
        search.answered(false).result(),
        Some(Err(WebviewError::CookieManagerUnavailable))
    );
}

#[test]
fn clearing_ends_whatever_cef_answers() {
    let (browsers, empty, full) = slots();
    for answers in 0..64u32 {
        for slot in [empty, full] {
            let mut step = clear_all_browsing_data(&browsers, &slot);
            for index in 0..6 {
                step = step.answered(answers & (1 << index) != 0);
            }
            assert!(step.result().is_some());
        }
    }
    // The cache comes first, and the cookies of its context after it.
    let mut step = clear_all_browsing_data(&browsers, &full);
    let mut made = Vec::new();
    while step.result().is_none() {
        made.push(step);
        step = step.answered(true);
    }
    let own = CookieManager::OfContext;
    assert_eq!(
        made[2..],
        [
            ClearBrowsingData::ClearHttpCache,
            ClearBrowsingData::AskContextManager,
            ClearBrowsingData::DeleteCookies(own),
            ClearBrowsingData::FlushStore(own),
        ]
    );
    assert_eq!(step.result(), Some(Ok(())));
    let none = clear_all_browsing_data(&browsers, &empty).answered(false);
    assert_eq!(none, ClearBrowsingData::NothingToClear);
    assert_eq!(none.result(), Some(Err(WebviewError::ContextUnavailable)));
}

#[test]
fn operations_on_cookies_have_their_errors() {
    let page = Some("https://page.app/");
    let request = set_cookie(&cookie(None, None), page).unwrap();
    assert_eq!(request.url, "https://page.app/");
    assert_eq!(
        set_cookie(&cookie(None, None), None).unwrap_err(),
        WebviewError::CookieUrlUnknown
    );
    let request = delete_cookie(&cookie(Some("tauri.app"), None), None).unwrap();
    assert_eq!((request.url.as_str(), request.name.as_str()), ("https://tauri.app/", "name"));
    assert_eq!(
        delete_cookie(&cookie(None, None), Some("no url")).unwrap_err(),
        WebviewError::CookieUrlUnknown
    );
    assert_eq!(cookie_set(0), Err(WebviewError::SetCookieFailed));
    assert_eq!(cookie_set(1), Ok(()));
    assert_eq!(cookie_deleted(-1), Err(WebviewError::DeleteCookieFailed));
    assert_eq!(cookie_deleted(0), Ok(()));
    assert_eq!(query_started(0), Err(WebviewError::CookieQueryFailed));
    assert_eq!(query_started(1), Ok(()));
    assert!(matches!(collect_cookies(None), CookieQuery::All));
    match collect_cookies(Some("https://a")) {
        CookieQuery::ForUrl(url) => assert_eq!(url, "https://a"),
        CookieQuery::All => unreachable!(),
    }
    assert_eq!(WebviewError::SetCookieFailed.message(), "failed to set cookie");
}
