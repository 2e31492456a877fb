use spider::accumulator::{FileState, Step};
use spider::fetch::{
    after_failure, body_accumulator, browser_plan, browser_status, fallback, fetch, fetch_page, fetch_page_and_headers, fetch_page_html, fetch_page_html_chrome, fetch_page_html_chrome_base, fetch_page_html_raw, final_url, get_last_redirect, is_success, perform_chrome_http_request, waf_check, Backend, BrowserFetch, BrowserRequest, BrowserResponse, BrowserStep, ChromeHTTPReqRes, FetchPageResult, HttpReply,
};
use spider::page::PageResponse;

fn reply(status: u16, url: &str) -> Option<HttpReply> {
    Some(HttpReply { status, url: url.to_string(), headers: None })
}

fn response(url: &str) -> BrowserResponse {
    BrowserResponse {
        url: url.to_string(),
        status: 200,
        protocol: Some("h2".to_string()),
        headers: Some(vec![("server".to_string(), "\"x\"".to_string())]),
        subject_name: None,
    }
}

fn fetch_options() -> BrowserFetch {
    BrowserFetch {
        content: false,
        wait_for_navigation: true,
        page_set: false,
        real_browser: false,
        screenshot: false,
        cache: false,
        keep_page_open: false,
    }
}

#[test]
fn fetch_of_an_ok_page() {
    let r = fetch_page_html_raw(
        "http://a.test/",
        reply(200, "http://a.test/"),
        b"<html>ok</html>".to_vec(),
    );
    assert_eq!(r.content, Some(b"<html>ok</html>".to_vec()));
    assert_eq!(r.status_code, 200);
    assert_eq!(r.final_url, None);
    assert!(r.headers.is_none());
    assert!(r.error_for_status.is_none() && r.screenshot_bytes.is_none());
    assert!(r.openai_credits_used.is_none() && r.extra_ai_data.is_none());
}

#[test]
fn redirect_sets_the_final_url() {
    let r = fetch_page_html_raw("http://a.test/x", reply(200, "http://a.test/y"), Vec::new());
    assert_eq!(r.final_url, Some("http://a.test/y".to_string()));
    assert_eq!(r.content, Some(Vec::new()));
    let r = fetch_page_html("http://a.test/x", reply(204, "http://a.test/y"), b"z".to_vec());
    assert_eq!(r.final_url, Some("http://a.test/y".to_string()));
    assert_eq!(r.status_code, 204);
}

#[test]
fn refused_request_has_status_and_headers_only() {
    let mut headers = http::HeaderMap::new();
    headers.insert("x-a", http::HeaderValue::from_static("1"));
    let r = fetch_page_html_raw(
        "http://a.test/x",
        Some(HttpReply { status: 404, url: "http://a.test/y".to_string(), headers: Some(headers.clone()) }),
        b"ignored".to_vec(),
    );
    assert_eq!(r.status_code, 404);
    assert_eq!(r.content, None);
    assert_eq!(r.final_url, None);
    assert_eq!(r.headers, Some(headers));
}

#[test]
fn failed_request_gives_the_empty_response() {
    let r = fetch_page_html_raw("http://a.test/x", None, b"ignored".to_vec());
    let d = PageResponse::default();
    assert_eq!(r.content, d.content);
    assert_eq!(r.status_code, 200);
    assert_eq!(d.status_code, 200);
    assert!(r.final_url.is_none() && r.headers.is_none());
}

#[test]
fn browser_failure_falls_back_to_http() {
    assert_eq!(fallback(Backend::Browser), Some(Backend::Raw));
    assert_eq!(fallback(Backend::Raw), None);
    assert_eq!(fallback(Backend::Spill), None);
    let r = fetch_page_html_chrome("http://a.test/x", None, reply(503, "http://a.test/x"), Vec::new());
    assert_eq!(r.status_code, 503);
    let r = fetch_page_html_chrome("http://a.test/x", None, reply(200, "http://a.test/y"), b"b".to_vec());
    assert_eq!(r.status_code, 200);
    assert_eq!(r.content, Some(b"b".to_vec()));
    assert_eq!(r.final_url, Some("http://a.test/y".to_string()));
    let r = fetch_page_html_chrome("http://a.test/x", None, reply(200, "http://a.test/x"), b"b".to_vec());
    assert_eq!(r.final_url, None);
    let r = fetch_page_html_chrome("http://a.test/x", None, None, Vec::new());
    assert_eq!(r.status_code, 200);
    assert!(r.content.is_none());
}

#[test]
fn browser_response_is_kept() {
    let nav = ChromeHTTPReqRes::default();
    let (page, ok) = fetch_page_html_chrome_base(&nav, b"<html>b</html>".to_vec(), Some("http://a.test/y".to_string()));
    assert!(ok);
    let r = fetch_page_html_chrome("http://a.test/x", Some(page), reply(500, "http://a.test/x"), Vec::new());
    assert_eq!(r.status_code, 200);
    assert_eq!(r.content, Some(b"<html>b</html>".to_vec()));
    assert_eq!(r.final_url, Some("http://a.test/y".to_string()));
}

#[test]
fn empty_capture_has_no_content() {
    let nav = ChromeHTTPReqRes::default();
    let (page, ok) = fetch_page_html_chrome_base(&nav, Vec::new(), None);
    assert!(!ok);
    assert!(page.content.is_none());
    assert_eq!(page.status_code, 200);
}

#[test]
fn unresolved_flagged_challenge_is_forbidden() {
    let template = b"<html><head>\n    <style global=\"\">x</style></head><body><script>a();</script><iframe height=\"1\" width=\"1\" style=\"position: absolute; top: 0px; left: 0px; border: none; visibility: hidden;\"></iframe>\n\n</body></html>".to_vec();
    let mut nav = ChromeHTTPReqRes::default();
    nav.waf_check = true;
    assert_eq!(fetch_page_html_chrome_base(&nav, template.clone(), None).0.status_code, 403);
    nav.waf_check = false;
    assert_eq!(fetch_page_html_chrome_base(&nav, template, None).0.status_code, 200);
}

#[test]
fn success_is_the_two_hundreds() {
    assert!(is_success(200) && is_success(299));
    assert!(!is_success(199) && !is_success(300) && !is_success(404));
    assert_eq!(final_url("a", "a"), None);
    assert_eq!(final_url("a", "b"), Some("b".to_string()));
}

#[test]
fn bytes_only_on_success() {
    assert_eq!(fetch_page(Some(200), Some(b"x".to_vec())), Some(b"x".to_vec()));
    assert_eq!(fetch_page(Some(200), None), None);
    assert_eq!(fetch_page(Some(500), Some(b"x".to_vec())), None);
    assert_eq!(fetch_page(None, Some(b"x".to_vec())), None);
}

#[test]
fn page_and_headers() {
    let headers = http::HeaderMap::new();
    assert!(matches!(
        fetch_page_and_headers(Some((200, headers.clone())), Some(b"x".to_vec())),
        FetchPageResult::Success(_, Some(b)) if b == b"x".to_vec()
    ));
    assert!(matches!(
        fetch_page_and_headers(Some((200, headers.clone())), None),
        FetchPageResult::Success(_, None)
    ));
    assert!(matches!(
        fetch_page_and_headers(Some((301, headers)), Some(Vec::new())),
        FetchPageResult::NoSuccess(_)
    ));
    assert!(matches!(fetch_page_and_headers(None, None), FetchPageResult::FetchError));
}

#[test]
fn accumulators_of_the_backends() {
    let mut raw = body_accumulator(Backend::Raw, 0);
    assert_eq!(raw.file(), FileState::Abandoned);
    assert_eq!(raw.offer(&vec![0u8; 10000]), Step::Buffered);
    let mut spill = body_accumulator(Backend::Spill, 0);
    assert_eq!(spill.file(), FileState::NoFile);
    assert_eq!(spill.offer(&vec![0u8; 8191]), Step::Buffered);
    assert_eq!(spill.offer(&[0u8]), Step::Spill);
    let mut capped = body_accumulator(Backend::Browser, 5);
    assert_eq!(capped.offer(b"123456"), Step::Stop);
    let mut one = body_accumulator(Backend::Raw, 0);
    assert!(one.pending().is_empty());
    assert_eq!(one.offer(b"x"), Step::Buffered);
    assert_eq!(one.finish(None), b"x".to_vec());
}

#[test]
fn navigation_without_a_report() {
    let r = perform_chrome_http_request("http://a.test/", None);
    assert_eq!(r.method, "GET");
    assert_eq!(r.protocol, "http/1.1");
    assert_eq!(r.status_code, 200);
    assert!(!r.waf_check);
    assert!(r.request_headers.is_empty() && r.response_headers.is_empty());
}

#[test]
fn navigation_record() {
    let request = BrowserRequest {
        method: Some("POST".to_string()),
        headers: vec![("accept".to_string(), "*/*".to_string())],
        response: Some(response("http://a.test/page")),
    };
    let r = perform_chrome_http_request("http://a.test/", Some(request));
    assert_eq!(r.method, "POST");
    assert_eq!(r.protocol, "h2");
    assert_eq!(r.status_code, 200);
    assert!(!r.waf_check);
    assert_eq!(r.request_headers, vec![("accept".to_string(), "*/*".to_string())]);
    assert_eq!(r.response_headers, vec![("server".to_string(), "\"x\"".to_string())]);
    let bare = BrowserRequest { method: None, headers: Vec::new(), response: None };
    let r = perform_chrome_http_request("http://a.test/", Some(bare));
    assert_eq!(r.method, "GET");
    assert_eq!(r.protocol, "http/1.1");
    assert_eq!(r.status_code, 200);
}

#[test]
fn challenge_flags() {
    let source = "http://a.test/";
    assert!(!waf_check(source, &response("http://a.test/cdn-cgi/challenge-platform/x")));
    assert!(waf_check(source, &response("http://b.test/cdn-cgi/challenge-platform/x")));
    assert!(!waf_check(source, &response("http://b.test/other")));
    let mut secured = response("http://b.test/cdn-cgi/challenge-platform/x");
    secured.subject_name = Some("b.test".to_string());
    assert!(!waf_check(source, &secured));
    secured.subject_name = Some("challenges.cloudflare.com".to_string());
    assert!(waf_check(source, &secured));
    let mut blob = response("blob:http://b.test/1");
    blob.protocol = Some("blob".to_string());
    assert!(waf_check(source, &blob));
    blob.url = "http://a.test/1".to_string();
    assert!(!waf_check(source, &blob));
}

#[test]
fn status_numbers_of_the_browser() {
    assert_eq!(browser_status(200), 200);
    assert_eq!(browser_status(100), 100);
    assert_eq!(browser_status(999), 999);
    assert_eq!(browser_status(99), 417);
    assert_eq!(browser_status(1000), 417);
    assert_eq!(browser_status(0), 417);
    assert_eq!(browser_status(-1), 417);
    assert_eq!(browser_status(65536 + 404), 404);
    assert_eq!(browser_status(65736), 200);
    assert_eq!(browser_status(-65336), 200);
    assert_eq!(browser_status(-65536), 417);
    assert_eq!(browser_status(i64::MIN), 417);
    assert_eq!(browser_status(i64::MAX), 417);
    assert_eq!(browser_status(i64::MIN + 300), 300);
}

#[test]
fn last_redirect_of_a_chain() {
    let chain = vec![Some("http://a.test/x".to_string()), Some("http://a.test/y".to_string())];
    assert_eq!(get_last_redirect("http://a.test/x", Some(&chain)), Some("http://a.test/y".to_string()));
    assert_eq!(get_last_redirect("http://a.test/y", Some(&chain)), None);
    assert_eq!(get_last_redirect("http://a.test/x", Some(&Vec::new())), None);
    assert_eq!(get_last_redirect("http://a.test/x", Some(&vec![None])), None);
    assert_eq!(get_last_redirect("http://a.test/x", None), None);
}

#[test]
fn steps_of_a_fresh_navigation() {
    let mut f = fetch_options();
    f.real_browser = true;
    f.screenshot = true;
    f.cache = true;
    assert_eq!(
        browser_plan(f),
        vec![
            BrowserStep::Navigate,
            BrowserStep::AwaitNavigation,
            BrowserStep::Wait,
            BrowserStep::Capture,
            BrowserStep::ResolveChallenge,
            BrowserStep::Augment,
            BrowserStep::Screenshot,
            BrowserStep::Cache,
            BrowserStep::Close,
        ]
    );
}

#[test]
fn steps_of_a_replay_and_of_a_set_page() {
    let mut f = fetch_options();
    f.content = true;
    f.cache = true;
    assert_eq!(
        browser_plan(f),
        vec![
            BrowserStep::SetContent,
            BrowserStep::Wait,
            BrowserStep::Capture,
            BrowserStep::Augment,
            BrowserStep::Close,
        ]
    );
    let mut f = fetch_options();
    f.page_set = true;
    f.cache = true;
    f.keep_page_open = true;
    assert_eq!(
        browser_plan(f),
        vec![
            BrowserStep::AwaitNavigation,
            BrowserStep::Wait,
            BrowserStep::Capture,
            BrowserStep::Augment,
        ]
    );
}

#[test]
fn fatal_steps() {
    assert!(BrowserStep::Navigate.fatal());
    assert!(BrowserStep::SetContent.fatal());
    assert!(BrowserStep::Capture.fatal());
    assert!(BrowserStep::Close.fatal());
    assert!(!BrowserStep::AwaitNavigation.fatal());
    assert!(!BrowserStep::Wait.fatal());
    assert!(!BrowserStep::ResolveChallenge.fatal());
    assert!(!BrowserStep::Augment.fatal());
    assert!(!BrowserStep::Screenshot.fatal());
    assert!(!BrowserStep::Cache.fatal());
}

#[test]
fn fetch_by_backend() {
    let r = fetch(Backend::Raw, "http://a.test/x", None, reply(200, "http://a.test/y"), b"ok".to_vec());
    assert_eq!(r.final_url, Some("http://a.test/y".to_string()));
    assert_eq!(r.content, Some(b"ok".to_vec()));
    let r = fetch(Backend::Spill, "http://a.test/x", None, reply(404, "http://a.test/x"), Vec::new());
    assert_eq!(r.status_code, 404);
    assert!(r.content.is_none());
    let r = fetch(Backend::Browser, "http://a.test/x", None, reply(200, "http://a.test/y"), b"ok".to_vec());
    assert_eq!(r.final_url, Some("http://a.test/y".to_string()));
    assert_eq!(r.content, Some(b"ok".to_vec()));
    let (page, _) = fetch_page_html_chrome_base(&ChromeHTTPReqRes::default(), b"seen".to_vec(), None);
    let r = fetch(Backend::Browser, "http://a.test/x", Some(page), None, Vec::new());
    assert_eq!(r.content, Some(b"seen".to_vec()));
    let r = fetch(Backend::Raw, "http://a.test/x", None, None, Vec::new());
    assert_eq!(r.status_code, 200);
    assert!(r.content.is_none() && r.final_url.is_none());
}

#[test]
fn page_is_closed_after_a_failure() {
    let f = fetch_options();
    for failed in [BrowserStep::SetContent, BrowserStep::Navigate, BrowserStep::Capture] {
        assert_eq!(after_failure(f, failed), vec![BrowserStep::Close]);
    }
    assert!(after_failure(f, BrowserStep::Close).is_empty());
    for failed in [
        BrowserStep::AwaitNavigation,
        BrowserStep::Wait,
        BrowserStep::ResolveChallenge,
        BrowserStep::Augment,
        BrowserStep::Screenshot,
        BrowserStep::Cache,
    ] {
        assert!(after_failure(f, failed).is_empty());
    }
    let mut kept = fetch_options();
    kept.keep_page_open = true;
    assert!(after_failure(kept, BrowserStep::Navigate).is_empty());
    assert!(after_failure(kept, BrowserStep::Capture).is_empty());
}

#[test]
fn cache_only_for_fresh_navigations() {
    let mut f = fetch_options();
    f.cache = true;
    assert!(browser_plan(f).contains(&BrowserStep::Cache));
    f.content = true;
    assert!(!browser_plan(f).contains(&BrowserStep::Cache));
    f.content = false;
    f.page_set = true;
    assert!(!browser_plan(f).contains(&BrowserStep::Cache));
}
