//! The fetch orchestrator: which backend fetches a page, what the browser is
//! asked to do and in which order, what is made of the answers, and when the
//! plain HTTP backend steps in.
//!
//! No failure of a backend is an error of the fetch: every path ends in a
//! page response.

use vstd::prelude::*;
use crate::accumulator::{
    accumulated, concat, lemma_accumulated_unlimited, lemma_accumulated_within_cap,
    lemma_taken_is_prefix, Accumulator, FileState, SPILL_THRESHOLD,
};
use crate::cache::Headers;
use crate::challenge::{reported_status, force_status};
use crate::page::{PageResponse, STATUS_OK};
use crate::strings::{str_contains, str_eq, str_starts_with};
use crate::text::{is_prefix, occurs_in};

verus! {

// ---------------------------------------------------------------------------
// The HTTP backends
// ---------------------------------------------------------------------------

/// The interchangeable ways to fetch a page.
#[derive(Debug, Clone, Copy, PartialEq, Eq, Structural)]
pub enum Backend {
    /// Plain HTTP, the body gathered in memory.
    Raw,
    /// Plain HTTP, the body moved to a temporary file once it is large.
    Spill,
    /// A browser that is driven by remote control.
    Browser,
}

/// The backend that steps in when one failed: plain HTTP after the browser,
/// none after plain HTTP.
pub open spec fn fallback_of(backend: Backend) -> Option<Backend> {
    match backend {
        Backend::Browser => Some(Backend::Raw),
        _ => None,
    }
}

/// The backend to fall back to.
pub fn fallback(backend: Backend) -> (next: Option<Backend>)
    ensures
        next == fallback_of(backend),
{
    match backend {
        Backend::Browser => Some(Backend::Raw),
        _ => None,
    }
}

/// The accumulator that a backend gathers a body with: the raw backend never
/// asks for a file, the spill backend does at the default threshold; both
/// keep the size cap.
pub fn body_accumulator(backend: Backend, max_bytes: usize) -> (acc: Accumulator)
    ensures
        acc.wf(),
        acc@.accepted == Seq::<u8>::empty(),
        acc@.in_memory == Seq::<u8>::empty(),
        acc@.on_disk == Seq::<u8>::empty(),
        !acc@.stopped,
        acc@.max_bytes == max_bytes,
        acc@.file == (if backend == Backend::Spill {
            FileState::NoFile
        } else {
            FileState::Abandoned
        }),
        backend == Backend::Spill ==> acc@.spill_threshold == SPILL_THRESHOLD,
{
    match backend {
        Backend::Spill => Accumulator::new(Some(max_bytes), SPILL_THRESHOLD),
        _ => Accumulator::in_memory(Some(max_bytes)),
    }
}

/// A status code says success when it is in the two hundreds.
pub open spec fn success(status: u16) -> bool {
    200 <= status < 300
}

/// Whether a status code says success.
pub fn is_success(status: u16) -> (r: bool)
    ensures
        r == success(status),
{
    200 <= status && status < 300
}

/// The target of a redirect: the URL that answered, where it is not the URL
/// that was asked for.
pub open spec fn redirect_of(requested: Seq<char>, answered: Seq<char>) -> Option<Seq<char>> {
    if requested != answered {
        Some(answered)
    } else {
        None
    }
}

/// The text of an optional string.
pub open spec fn text_of(s: Option<String>) -> Option<Seq<char>> {
    match s {
        Some(t) => Some(t@),
        None => None,
    }
}

/// The final URL of a fetch, set only where a redirect changed the URL.
pub fn final_url(requested: &str, answered: &str) -> (r: Option<String>)
    ensures
        text_of(r) == redirect_of(requested@, answered@),
{
    if !str_eq(requested, answered) {
        Some(answered.to_owned())
    } else {
        None
    }
}

/// What an HTTP server answered, before its body is read.
#[derive(Debug)]
pub struct HttpReply {
    /// The status of the answer.
    pub status: u16,
    /// The URL that answered, after redirects.
    pub url: String,
    /// The headers of the answer, where the backend hands them out.
    pub headers: Option<http::HeaderMap<http::HeaderValue>>,
}

/// The response that the HTTP backends make of an answer: nothing but the
/// default where the request failed; status and headers where the server
/// refused; and the body, with the redirect's target where `with_redirect`
/// asks for it, where it succeeded.
pub open spec fn http_response(
    target_url: Seq<char>,
    reply: Option<HttpReply>,
    body: Seq<u8>,
    with_redirect: bool,
    r: PageResponse,
) -> bool {
    match reply {
        None => r.is_empty(),
        Some(reply) => {
            &&& r.status_code == reply.status
            &&& r.headers == reply.headers
            &&& r.error_for_status is None
            &&& r.screenshot_bytes is None
            &&& r.openai_credits_used is None
            &&& r.extra_ai_data is None
            &&& if success(reply.status) {
                &&& r.content matches Some(c) && c@ == body
                &&& text_of(r.final_url) == (if with_redirect {
                    redirect_of(target_url, reply.url@)
                } else {
                    None
                })
            } else {
                r.content is None && r.final_url is None
            }
        },
    }
}

fn respond(target_url: &str, reply: Option<HttpReply>, body: Vec<u8>, with_redirect: bool) -> (r:
    PageResponse)
    ensures
        http_response(target_url@, reply, body@, with_redirect, r),
{
    match reply {
        None => PageResponse::default(),
        Some(reply) => {
            if is_success(reply.status) {
                let rd = if with_redirect {
                    final_url(target_url, reply.url.as_str())
                } else {
                    None
                };
                PageResponse {
                    content: Some(body),
                    headers: reply.headers,
                    status_code: reply.status,
                    final_url: rd,
                    error_for_status: None,
                    screenshot_bytes: None,
                    openai_credits_used: None,
                    extra_ai_data: None,
                }
            } else {
                PageResponse {
                    content: None,
                    headers: reply.headers,
                    status_code: reply.status,
                    final_url: None,
                    error_for_status: None,
                    screenshot_bytes: None,
                    openai_credits_used: None,
                    extra_ai_data: None,
                }
            }
        },
    }
}

/// Perform a network request to a resource extracting all content streaming:
/// the response of the raw backend for what the server answered and the body
/// that was gathered. `reply` is `None` where the request failed.
pub fn fetch_page_html_raw(target_url: &str, reply: Option<HttpReply>, body: Vec<u8>) -> (r:
    PageResponse)
    ensures
        http_response(target_url@, reply, body@, true, r),
{
    respond(target_url, reply, body, true)
}

/// Perform a network request to a resource extracting all content as text
/// streaming: the response of the spill backend. It is the raw backend's; the
/// two differ in how the body is gathered.
pub fn fetch_page_html(target_url: &str, reply: Option<HttpReply>, body: Vec<u8>) -> (r:
    PageResponse)
    ensures
        http_response(target_url@, reply, body@, true, r),
{
    respond(target_url, reply, body, true)
}

/// Perform a network request to a resource extracting all content as text:
/// the body where the server said success and the body could be read.
pub fn fetch_page(status: Option<u16>, body: Option<Vec<u8>>) -> (r: Option<Vec<u8>>)
    ensures
        r == (match status {
            Some(s) => if success(s) {
                body
            } else {
                None
            },
            None => None,
        }),
{
    match status {
        Some(s) => {
            if is_success(s) {
                body
            } else {
                None
            }
        },
        None => None,
    }
}

/// Fetch a page with the headers returned.
#[derive(Debug)]
pub enum FetchPageResult {
    /// Success extracting contents of the page
    Success(http::HeaderMap<http::HeaderValue>, Option<Vec<u8>>),
    /// No success extracting content
    NoSuccess(http::HeaderMap<http::HeaderValue>),
    /// A network error occured.
    FetchError,
}

/// Perform a network request to a resource with the response headers: what
/// the answer comes to. `reply` is `None` where the request failed, `body`
/// where the body could not be read.
pub fn fetch_page_and_headers(
    reply: Option<(u16, http::HeaderMap<http::HeaderValue>)>,
    body: Option<Vec<u8>>,
) -> (r: FetchPageResult)
    ensures
        r == (match reply {
            None => FetchPageResult::FetchError,
            Some((status, headers)) => if success(status) {
                FetchPageResult::Success(headers, body)
            } else {
                FetchPageResult::NoSuccess(headers)
            },
        }),
{
    match reply {
        None => FetchPageResult::FetchError,
        Some((status, headers)) => {
            if is_success(status) {
                FetchPageResult::Success(headers, body)
            } else {
                FetchPageResult::NoSuccess(headers)
            }
        },
    }
}

// ---------------------------------------------------------------------------
// What the browser reports of a navigation
// ---------------------------------------------------------------------------

/// The chrome HTTP response.
#[derive(Debug)]
pub struct ChromeHTTPReqRes {
    /// Is the request blocked by a firewall?
    pub waf_check: bool,
    /// The HTTP status code.
    pub status_code: u16,
    /// The HTTP method of the request.
    pub method: String,
    /// The HTTP response headers for the request.
    pub response_headers: Headers,
    /// The HTTP request headers for the request.
    pub request_headers: Headers,
    /// The HTTP protocol of the request.
    pub protocol: String,
}

impl Default for ChromeHTTPReqRes {
    fn default() -> (r: Self)
        ensures
            !r.waf_check,
            r.status_code == STATUS_OK,
            r.method@.len() == 0,
            r.response_headers@.len() == 0,
            r.request_headers@.len() == 0,
            r.protocol@.len() == 0,
    {
        ChromeHTTPReqRes {
            waf_check: false,
            status_code: STATUS_OK,
            method: String::new(),
            response_headers: Vec::new(),
            request_headers: Vec::new(),
            protocol: String::new(),
        }
    }
}

/// The response that the browser saw for a navigation.
#[derive(Debug)]
pub struct BrowserResponse {
    /// The URL that answered.
    pub url: String,
    /// The status, as the browser reports it.
    pub status: i64,
    /// The protocol, where the browser names it.
    pub protocol: Option<String>,
    /// The headers, where the browser reports them as a set of fields.
    pub headers: Option<Headers>,
    /// The subject name of the certificate, where the connection was secured.
    pub subject_name: Option<String>,
}

/// The request that the browser made for a navigation.
#[derive(Debug)]
pub struct BrowserRequest {
    /// The method, where the browser names it.
    pub method: Option<String>,
    /// The headers of the request.
    pub headers: Headers,
    /// The response, where there was one.
    pub response: Option<BrowserResponse>,
}

/// The status that stands for a number that is no status code: 417.
pub const EXPECTATION_FAILED: u16 = 417;

/// The low sixteen bits of a number: its remainder by 65536, which is never
/// negative.
pub open spec fn low_bits(status: i64) -> int {
    status as int % 0x1_0000
}

/// The status code that a number of the browser stands for: its low sixteen
/// bits where they are at least 100 and less than 1000, else 417.
pub open spec fn status_of(status: i64) -> u16 {
    let low = low_bits(status);
    if 100 <= low < 1000 {
        low as u16
    } else {
        EXPECTATION_FAILED
    }
}

/// The status code that a number of the browser stands for.
pub fn browser_status(status: i64) -> (s: u16)
    ensures
        s == status_of(status),
{
    let low: i64 = if status >= 0 {
        status % 0x1_0000
    } else {
        let below: i64 = -(status + 1);
        0xffff - below % 0x1_0000
    };
    assert(low == low_bits(status));
    if 100 <= low && low < 1000 {
        low as u16
    } else {
        EXPECTATION_FAILED
    }
}

/// A response is a challenge when it came from elsewhere than was asked, and
/// its certificate is the challenge host's, or, without a certificate, its URL
/// is on the challenge path; or else when its protocol is `blob`.
pub open spec fn flags_challenge(source: Seq<char>, response: BrowserResponse) -> bool {
    !is_prefix(source, response.url@) && ({
        let by_host = match response.subject_name {
            Some(name) => name@ == "challenges.cloudflare.com"@,
            None => occurs_in("/cdn-cgi/challenge-platform"@, response.url@),
        };
        by_host || (match response.protocol {
            Some(p) => p@ == "blob"@,
            None => false,
        })
    })
}

/// Whether a response is flagged as a challenge.
pub fn waf_check(source: &str, response: &BrowserResponse) -> (r: bool)
    ensures
        r == flags_challenge(source@, *response),
{
    if str_starts_with(response.url.as_str(), source) {
        return false;
    }
    let by_host = match &response.subject_name {
        Some(name) => str_eq(name.as_str(), "challenges.cloudflare.com"),
        None => str_contains(response.url.as_str(), "/cdn-cgi/challenge-platform"),
    };
    if by_host {
        true
    } else {
        match &response.protocol {
            Some(p) => str_eq(p.as_str(), "blob"),
            None => false,
        }
    }
}

/// Perform a http future with chrome: what is kept of the request that the
/// browser made for `source`. Where the browser reports nothing, the record
/// says a `GET` over `http/1.1` that was answered with 200.
pub fn perform_chrome_http_request(source: &str, request: Option<BrowserRequest>) -> (r:
    ChromeHTTPReqRes)
    ensures
        r.method@ == (match request {
            Some(BrowserRequest { method: Some(m), .. }) => m@,
            _ => "GET"@,
        }),
        r.request_headers@ == (match request {
            Some(q) => q.headers@,
            None => Seq::empty(),
        }),
        r.protocol@ == (match request {
            Some(BrowserRequest { response: Some(BrowserResponse { protocol: Some(p), .. }), .. }) => p@,
            _ => "http/1.1"@,
        }),
        r.response_headers@ == (match request {
            Some(BrowserRequest { response: Some(BrowserResponse { headers: Some(h), .. }), .. }) => h@,
            _ => Seq::empty(),
        }),
        r.status_code == (match request {
            Some(BrowserRequest { response: Some(s), .. }) => status_of(s.status),
            _ => STATUS_OK,
        }),
        r.waf_check == (match request {
            Some(BrowserRequest { response: Some(s), .. }) => flags_challenge(source@, s),
            _ => false,
        }),
{
    match request {
        None => ChromeHTTPReqRes {
            waf_check: false,
            status_code: STATUS_OK,
            method: "GET".to_owned(),
            response_headers: Vec::new(),
            request_headers: Vec::new(),
            protocol: "http/1.1".to_owned(),
        },
        Some(q) => {
            let method = match q.method {
                Some(m) => m,
                None => "GET".to_owned(),
            };
            match q.response {
                None => ChromeHTTPReqRes {
                    waf_check: false,
                    status_code: STATUS_OK,
                    method,
                    response_headers: Vec::new(),
                    request_headers: q.headers,
                    protocol: "http/1.1".to_owned(),
                },
                Some(s) => {
                    let flagged = waf_check(source, &s);
                    let status_code = browser_status(s.status);
                    ChromeHTTPReqRes {
                        waf_check: flagged,
                        status_code,
                        method,
                        response_headers: match s.headers {
                            Some(h) => h,
                            None => Vec::new(),
                        },
                        request_headers: q.headers,
                        protocol: match s.protocol {
                            Some(p) => p,
                            None => "http/1.1".to_owned(),
                        },
                    }
                },
            }
        },
    }
}

/// The target of the last redirect of a navigation: the URL of the last
/// request of the chain, where it has one and it is not the URL asked for.
pub open spec fn last_redirect(target_url: Seq<char>, chain: Option<Seq<Option<String>>>) -> Option<
    Seq<char>,
> {
    match chain {
        Some(c) => if c.len() == 0 {
            None
        } else {
            match c.last() {
                Some(u) => redirect_of(target_url, u@),
                None => None,
            }
        },
        None => None,
    }
}

/// The URLs of an optional chain of requests.
pub open spec fn chain_of(chain: Option<&Vec<Option<String>>>) -> Option<Seq<Option<String>>> {
    match chain {
        Some(c) => Some(c@),
        None => None,
    }
}

/// Check if url matches the last item in a redirect chain for chrome CDP.
/// `chain` holds the URL of each request of the chain, or is `None` where the
/// navigation reported no request.
pub fn get_last_redirect(target_url: &str, chain: Option<&Vec<Option<String>>>) -> (r: Option<
    String,
>)
    ensures
        text_of(r) == last_redirect(target_url@, chain_of(chain)),
{
    match chain {
        Some(c) => {
            if c.len() == 0 {
                None
            } else {
                match &c[c.len() - 1] {
                    Some(u) => final_url(target_url, u.as_str()),
                    None => None,
                }
            }
        },
        None => None,
    }
}

// ---------------------------------------------------------------------------
// The browser backend
// ---------------------------------------------------------------------------

/// How the browser backend is set up and called.
#[derive(Debug, Clone, Copy, PartialEq, Eq, Structural)]
pub struct BrowserFetch {
    /// The source is markup to set on the page, not a URL to go to.
    pub content: bool,
    /// The navigation's response is awaited for the final URL.
    pub wait_for_navigation: bool,
    /// The page was navigated before this fetch.
    pub page_set: bool,
    /// Challenge pages are resolved.
    pub real_browser: bool,
    /// A screenshot configuration was handed in, or screenshots are on by
    /// default.
    pub screenshot: bool,
    /// Fresh navigations are written to the cache.
    pub cache: bool,
    /// The page stays open after the fetch.
    pub keep_page_open: bool,
}

/// One step of a browser fetch.
#[derive(Debug, Clone, Copy, PartialEq, Eq, Structural)]
pub enum BrowserStep {
    /// Set the source as the page's content.
    SetContent,
    /// Go to the source, and record the request and its response.
    Navigate,
    /// Await the navigation's response, for the final URL.
    AwaitNavigation,
    /// Hold the page to the caller's wait conditions.
    Wait,
    /// Capture the page's content.
    Capture,
    /// Detect a challenge page and try to get past it.
    ResolveChallenge,
    /// Hand the page to the language model.
    Augment,
    /// Take the screenshot.
    Screenshot,
    /// Write the page to the cache.
    Cache,
    /// Close the page.
    Close,
}

impl BrowserStep {
    /// A failure of the step fails the browser backend; the other steps are
    /// best effort.
    pub open spec fn is_fatal(self) -> bool {
        self == BrowserStep::SetContent || self == BrowserStep::Navigate || self
            == BrowserStep::Capture || self == BrowserStep::Close
    }

    /// Whether a failure of the step fails the browser backend.
    pub fn fatal(self) -> (r: bool)
        ensures
            r == self.is_fatal(),
    {
        match self {
            BrowserStep::SetContent => true,
            BrowserStep::Navigate => true,
            BrowserStep::Capture => true,
            BrowserStep::Close => true,
            _ => false,
        }
    }
}

/// Zero or one step.
pub open spec fn step_if(cond: bool, step: BrowserStep) -> Seq<BrowserStep> {
    if cond {
        seq![step]
    } else {
        Seq::empty()
    }
}

/// The steps of a browser fetch, in order: navigate, wait, capture, detect a
/// challenge, augment, take the screenshot, write the cache, close. The cache
/// is written for a fresh navigation only: not for a page that was set before,
/// and not for content that was set on the page.
pub open spec fn browser_steps(f: BrowserFetch) -> Seq<BrowserStep> {
    step_if(!f.page_set && f.content, BrowserStep::SetContent) + step_if(
        !f.page_set && !f.content,
        BrowserStep::Navigate,
    ) + step_if(f.wait_for_navigation && !f.content, BrowserStep::AwaitNavigation) + seq![
        BrowserStep::Wait,
        BrowserStep::Capture,
    ] + step_if(f.real_browser, BrowserStep::ResolveChallenge) + seq![BrowserStep::Augment]
        + step_if(f.screenshot, BrowserStep::Screenshot) + step_if(
        !f.page_set && !f.content && f.cache,
        BrowserStep::Cache,
    ) + step_if(!f.keep_page_open, BrowserStep::Close)
}

fn push_if(steps: &mut Vec<BrowserStep>, cond: bool, step: BrowserStep)
    ensures
        final(steps)@ == old(steps)@ + step_if(cond, step),
{
    if cond {
        steps.push(step);
    }
    assert(steps@ =~= old(steps)@ + step_if(cond, step));
}

/// The steps of a fetch with the browser, in order.
pub fn browser_plan(f: BrowserFetch) -> (steps: Vec<BrowserStep>)
    ensures
        steps@ == browser_steps(f),
{
    let mut steps: Vec<BrowserStep> = Vec::new();
    push_if(&mut steps, !f.page_set && f.content, BrowserStep::SetContent);
    push_if(&mut steps, !f.page_set && !f.content, BrowserStep::Navigate);
    push_if(&mut steps, f.wait_for_navigation && !f.content, BrowserStep::AwaitNavigation);
    steps.push(BrowserStep::Wait);
    steps.push(BrowserStep::Capture);
    push_if(&mut steps, f.real_browser, BrowserStep::ResolveChallenge);
    steps.push(BrowserStep::Augment);
    push_if(&mut steps, f.screenshot, BrowserStep::Screenshot);
    push_if(&mut steps, !f.page_set && !f.content && f.cache, BrowserStep::Cache);
    push_if(&mut steps, !f.keep_page_open, BrowserStep::Close);
    assert(steps@ =~= browser_steps(f));
    steps
}

/// The steps that are still owed when a step failed for good: the page is
/// closed, unless it is kept open or closing it is what failed.
pub open spec fn owed_after(f: BrowserFetch, failed: BrowserStep) -> Seq<BrowserStep> {
    step_if(failed.is_fatal() && failed != BrowserStep::Close && !f.keep_page_open, BrowserStep::Close)
}

/// The steps to take after `failed` failed, before the fetch falls back to
/// plain HTTP. A step whose failure is no failure of the backend owes
/// nothing: the plan goes on.
pub fn after_failure(f: BrowserFetch, failed: BrowserStep) -> (steps: Vec<BrowserStep>)
    ensures
        steps@ == owed_after(f, failed),
{
    let mut steps: Vec<BrowserStep> = Vec::new();
    let closes = match failed {
        BrowserStep::Close => false,
        _ => failed.fatal() && !f.keep_page_open,
    };
    push_if(&mut steps, closes, BrowserStep::Close);
    assert(steps@ =~= owed_after(f, failed));
    steps
}

/// Perform a network request to a resource extracting all content as text
/// streaming via chrome: the response for the content that was captured
/// after the steps of `browser_plan`. It has no content where the capture is
/// empty, the final URL as the navigation gave it, and the status of the
/// navigation, or `Forbidden` where the navigation was flagged as a challenge
/// and the content still is the unresolved template. The second part says
/// whether there is content for the language model to work on.
pub fn fetch_page_html_chrome_base(nav: &ChromeHTTPReqRes, body: Vec<u8>, final_url: Option<String>) -> (r: (
    PageResponse,
    bool,
))
    ensures
        r.1 == (body@.len() > 0),
        r.0.content == (if body@.len() > 0 {
            Some(body)
        } else {
            None
        }),
        r.0.status_code == reported_status(nav.waf_check, body@, nav.status_code),
        r.0.final_url == final_url,
        r.0.headers is None,
        r.0.error_for_status is None,
        r.0.screenshot_bytes is None,
        r.0.openai_credits_used is None,
        r.0.extra_ai_data is None,
{
    let ok = body.len() > 0;
    let status_code = force_status(nav.waf_check, body.as_slice(), nav.status_code);
    let page = PageResponse {
        content: if ok {
            Some(body)
        } else {
            None
        },
        headers: None,
        status_code,
        final_url,
        error_for_status: None,
        screenshot_bytes: None,
        openai_credits_used: None,
        extra_ai_data: None,
    };
    (page, ok)
}

/// Perform a network request to a resource extracting all content as text
/// streaming via chrome: the browser's response where it made one; else the
/// response of the raw backend for what the server answered, with the target
/// of a redirect as the final URL.
pub fn fetch_page_html_chrome(
    target_url: &str,
    browser: Option<PageResponse>,
    reply: Option<HttpReply>,
    body: Vec<u8>,
) -> (r: PageResponse)
    ensures
        match browser {
            Some(page) => r == page,
            None => http_response(target_url@, reply, body@, true, r),
        },
{
    match browser {
        Some(page) => page,
        None => respond(target_url, reply, body, true),
    }
}

/// The page response of a fetch with the backend that the engine was set up
/// with. `browser` is what the browser backend made, `None` where it failed or
/// is not the backend; `reply` and `body` are what plain HTTP answered, where
/// it was asked.
pub open spec fn fetched(
    backend: Backend,
    target_url: Seq<char>,
    browser: Option<PageResponse>,
    reply: Option<HttpReply>,
    body: Seq<u8>,
    r: PageResponse,
) -> bool {
    match backend {
        Backend::Browser => match browser {
            Some(page) => r == page,
            None => http_response(target_url, reply, body, true, r),
        },
        _ => http_response(target_url, reply, body, true, r),
    }
}

/// The page response of a fetch: the one entry point of the engine. Whatever
/// failed on the way, a response comes back.
pub fn fetch(
    backend: Backend,
    target_url: &str,
    browser: Option<PageResponse>,
    reply: Option<HttpReply>,
    body: Vec<u8>,
) -> (r: PageResponse)
    ensures
        fetched(backend, target_url@, browser, reply, body@, r),
{
    match backend {
        Backend::Raw => fetch_page_html_raw(target_url, reply, body),
        Backend::Spill => fetch_page_html(target_url, reply, body),
        Backend::Browser => fetch_page_html_chrome(target_url, browser, reply, body),
    }
}

/// Where the browser fails, plain HTTP answers: the fetch is the raw
/// backend's, with the status that the server gave and, after a redirect of a
/// successful request, the URL that answered as the final URL.
pub proof fn lemma_fallback_is_raw_backend(
    target_url: Seq<char>,
    reply: HttpReply,
    body: Seq<u8>,
    r: PageResponse,
)
    requires
        fetched(Backend::Browser, target_url, None, Some(reply), body, r),
    ensures
        fetched(Backend::Raw, target_url, None, Some(reply), body, r),
        r.status_code == reply.status,
        success(reply.status) && reply.url@ != target_url ==> text_of(r.final_url) == Some(
            reply.url@,
        ),
        fallback_of(Backend::Browser) == Some(Backend::Raw),
{
}

/// A successful fetch over plain HTTP hands back the stream: with the body
/// that the accumulator gathered from the chunks of the answer, the content is
/// the chunks in order up to the cut of the size cap; without a cap it is
/// every byte of every chunk, as long as their count fits the machine.
pub proof fn lemma_content_is_the_stream(
    target_url: Seq<char>,
    reply: HttpReply,
    chunks: Seq<Seq<u8>>,
    max_bytes: usize,
    r: PageResponse,
)
    requires
        success(reply.status),
        http_response(target_url, Some(reply), accumulated(chunks, max_bytes), true, r),
    ensures
        r.content matches Some(c) && c@ == accumulated(chunks, max_bytes) && is_prefix(
            c@,
            concat(chunks),
        ),
        max_bytes > 0 ==> r.content->0@.len() <= max_bytes,
        max_bytes == 0 && concat(chunks).len() <= usize::MAX ==> r.content->0@ == concat(chunks),
{
    lemma_taken_is_prefix(max_bytes, Seq::empty(), chunks);
    assert(Seq::<u8>::empty() + concat(chunks) =~= concat(chunks));
    if max_bytes > 0 {
        lemma_accumulated_within_cap(chunks, max_bytes);
    } else if concat(chunks).len() <= usize::MAX {
        lemma_accumulated_unlimited(chunks);
    }
}

/// The page is closed on success and on failure alike, unless it is kept
/// open: the plan ends with the close, and a step that fails for good before
/// it owes the close.
pub proof fn lemma_page_is_closed(f: BrowserFetch, failed: BrowserStep)
    requires
        !f.keep_page_open,
        failed.is_fatal(),
        failed != BrowserStep::Close,
    ensures
        browser_steps(f).last() == BrowserStep::Close,
        owed_after(f, failed) == seq![BrowserStep::Close],
{
}

/// The cache is written for fresh navigations only.
pub proof fn lemma_cache_for_fresh_navigation(f: BrowserFetch)
    ensures
        browser_steps(f).contains(BrowserStep::Cache) ==> browser_steps(f).contains(
            BrowserStep::Navigate,
        ) && f.cache && !f.page_set && !f.content,
{
    let s = browser_steps(f);
    if s.contains(BrowserStep::Cache) {
        let i = choose|i: int| 0 <= i < s.len() && s[i] == BrowserStep::Cache;
        assert(!f.page_set && !f.content && f.cache);
        assert(s[0] == BrowserStep::Navigate);
    }
}

/// Every browser fetch captures the content after it has waited, and closes
/// the page last unless it is kept open.
pub proof fn lemma_browser_order(f: BrowserFetch)
    ensures
        browser_steps(f).contains(BrowserStep::Capture),
        !f.keep_page_open ==> browser_steps(f).last() == BrowserStep::Close,
        f.page_set ==> !browser_steps(f).contains(BrowserStep::Cache) && !browser_steps(
            f,
        ).contains(BrowserStep::Navigate),
{
    let s = browser_steps(f);
    let head = step_if(!f.page_set && f.content, BrowserStep::SetContent) + step_if(
        !f.page_set && !f.content,
        BrowserStep::Navigate,
    ) + step_if(f.wait_for_navigation && !f.content, BrowserStep::AwaitNavigation);
    assert(s[head.len() as int + 1] == BrowserStep::Capture);
}

} // verus!
