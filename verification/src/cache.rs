//! The hybrid cache writer: what is stored for a page that the browser
//! fetched, under which key, and what the cache policy is built from.
//!
//! The policy and the store are the caller's; this module prepares what they
//! are given. A write that cannot be prepared is skipped, never an error.

use vstd::prelude::*;
use vstd::utf8::encode_utf8;
use crate::strings::{joined, str_eq};

verus! {

/// Represents an HTTP version
#[derive(Debug, Clone, Copy, PartialEq, Eq, Structural)]
#[non_exhaustive]
pub enum HttpVersion {
    /// HTTP Version 0.9
    Http09,
    /// HTTP Version 1.0
    Http10,
    /// HTTP Version 1.1
    Http11,
    /// HTTP Version 2.0
    H2,
    /// HTTP Version 3.0
    H3,
}

/// The headers of a request or a response as the browser reports them: names
/// and values in the order they were handed over. The browser reports each
/// name once (`distinct_names`); where a list holds one name twice all the
/// same, the later header is the one that counts.
pub type Headers = Vec<(String, String)>;

/// No header name occurs twice in the list, once the names are in their
/// normal form: what a report of the browser holds.
pub open spec fn distinct_names(headers: Seq<(Seq<char>, Seq<char>)>) -> bool {
    forall|i: int, j: int|
        0 <= i < j < headers.len() && header_name(headers[i].0) is Some ==> header_name(
            headers[i].0,
        ) != header_name(headers[j].0)
}

/// Header `k` is one that the map takes.
pub open spec fn is_valid_header(headers: Seq<(Seq<char>, Seq<char>)>, k: int) -> bool {
    is_header_value(headers[k].1) && header_name(headers[k].0) is Some
}

/// The texts of a list of headers.
pub open spec fn header_texts(headers: Seq<(String, String)>) -> Seq<(Seq<char>, Seq<char>)> {
    headers.map_values(|h: (String, String)| (h.0@, h.1@))
}

/// A basic generic type that represents an HTTP response.
#[derive(Debug)]
pub struct HttpResponse {
    /// HTTP response body
    pub body: Vec<u8>,
    /// HTTP response headers
    pub headers: Headers,
    /// HTTP response status code
    pub status: u16,
    /// HTTP response url
    pub url: String,
    /// HTTP response version
    pub version: HttpVersion,
}

/// A HTTP request type for caching.
#[derive(Debug)]
pub struct HttpRequestLike {
    ///  The URI component of a request.
    pub uri: String,
    /// The http method.
    pub method: String,
    /// The http headers.
    pub headers: http::HeaderMap<http::HeaderValue>,
}

/// A HTTP response type for caching.
#[derive(Debug)]
pub struct HttpResponseLike {
    /// The http status code.
    pub status: u16,
    /// The http headers.
    pub headers: http::HeaderMap<http::HeaderValue>,
}

impl HttpRequestLike {
    /// The URI component of the request.
    pub fn uri(&self) -> (u: &str)
        ensures
            u@ == self.uri@,
    {
        self.uri.as_str()
    }

    /// Whether the request is for `other`.
    pub fn is_same_uri(&self, other: &str) -> (r: bool)
        ensures
            r == (self.uri@ == other@),
    {
        str_eq(self.uri.as_str(), other)
    }

    /// The http method.
    pub fn method(&self) -> (m: &str)
        ensures
            m@ == self.method@,
    {
        self.method.as_str()
    }

    /// The http headers.
    pub fn headers(&self) -> (h: &http::HeaderMap<http::HeaderValue>)
        ensures
            *h == self.headers,
    {
        &self.headers
    }
}

impl HttpResponseLike {
    /// The http status code.
    pub fn status(&self) -> (s: u16)
        ensures
            s == self.status,
    {
        self.status
    }

    /// The http headers.
    pub fn headers(&self) -> (h: &http::HeaderMap<http::HeaderValue>)
        ensures
            *h == self.headers,
    {
        &self.headers
    }
}

// ---------------------------------------------------------------------------
// Header maps
// ---------------------------------------------------------------------------

/// What a header map holds: for each name, in its lowercase form, the bytes
/// of the value that was inserted last.
pub uninterp spec fn header_entries(map: http::HeaderMap<http::HeaderValue>) -> Map<
    Seq<char>,
    Seq<u8>,
>;

/// The name that `http::HeaderName::from_str` makes of a text: its normal,
/// lowercase form; `None` where the text is no header name.
pub uninterp spec fn header_name(name: Seq<char>) -> Option<Seq<char>>;

/// A byte that may stand in a header value.
pub open spec fn value_byte(b: u8) -> bool {
    (b >= 32 && b != 127) || b == 9
}

/// A text that is a header value: each byte of it is visible, a space, a tab
/// or above ASCII.
pub open spec fn is_header_value(value: Seq<char>) -> bool {
    forall|i: int|
        0 <= i < encode_utf8(value).len() ==> value_byte(#[trigger] encode_utf8(value)[i])
}

/// A header map without entries.
pub open spec fn no_entries() -> Map<Seq<char>, Seq<u8>> {
    Map::empty()
}

/// The number of entries below which a header map takes one more without
/// reaching the size at which it refuses to grow.
pub const HEADER_MAP_LIMIT: usize = 2048;

/// The most headers that are looked at: a list with more is malformed.
pub const HEADER_SCAN_LIMIT: usize = 2002;

/// `http::HeaderMap::new`: a map without entries.
#[verifier::external_body]
fn new_header_map() -> (fresh: http::HeaderMap<http::HeaderValue>)
    ensures
        header_entries(fresh) == no_entries(),
{
    http::HeaderMap::new()
}

/// `http::HeaderName::from_str`: whether a text is a header name.
#[verifier::external_body]
fn valid_name(name: &str) -> (r: bool)
    ensures
        r == (header_name(name@) is Some),
{
    name.parse::<http::HeaderName>().is_ok()
}

/// `http::HeaderValue::from_str`: whether a text is a header value.
#[verifier::external_body]
fn valid_value(value: &str) -> (r: bool)
    ensures
        r == is_header_value(value@),
{
    http::HeaderValue::from_str(value).is_ok()
}

/// `http::HeaderMap::insert`, with the name made by `HeaderName::from_str` and
/// the value by `HeaderValue::from_str`: the name's entry holds the value,
/// whatever it held before. The map panics when its table would pass 32768
/// slots; with fewer than 2048 entries its table stays below that.
#[verifier::external_body]
fn insert_header(map: &mut http::HeaderMap<http::HeaderValue>, name: &str, value: &str)
    requires
        header_name(name@) is Some,
        is_header_value(value@),
        header_entries(*old(map)).dom().finite(),
        header_entries(*old(map)).dom().len() < HEADER_MAP_LIMIT,
    ensures
        header_entries(*final(map)) == header_entries(*old(map)).insert(
            header_name(name@).unwrap(),
            encode_utf8(value@),
        ),
{
    map.insert(name.parse::<http::HeaderName>().unwrap(), http::HeaderValue::from_str(value).unwrap());
}

/// The entries that the first `n` headers give: each header with a name and
/// a value that the map takes sets its name's entry; the others are left out.
pub open spec fn converted(headers: Seq<(Seq<char>, Seq<char>)>, n: int) -> Map<
    Seq<char>,
    Seq<u8>,
>
    decreases n,
{
    if n <= 0 {
        Map::empty()
    } else {
        let before = converted(headers, n - 1);
        let (name, value) = headers[n - 1];
        if is_header_value(value) && header_name(name) is Some {
            before.insert(header_name(name).unwrap(), encode_utf8(value))
        } else {
            before
        }
    }
}

/// The number of headers that are looked at.
pub open spec fn scanned(len: int) -> int {
    if len < HEADER_SCAN_LIMIT {
        len
    } else {
        HEADER_SCAN_LIMIT as int
    }
}

proof fn lemma_converted_size(headers: Seq<(Seq<char>, Seq<char>)>, n: int)
    requires
        0 <= n,
    ensures
        converted(headers, n).dom().finite(),
        converted(headers, n).dom().len() <= n,
    decreases n,
{
    if n > 0 {
        lemma_converted_size(headers, n - 1);
    }
}

/// Of two headers with one name the later wins: the entry of a name holds the
/// value of the last valid header of that name among those looked at.
pub proof fn lemma_later_header_wins(headers: Seq<(Seq<char>, Seq<char>)>, n: int, k: int)
    requires
        0 <= k < n <= headers.len(),
        is_valid_header(headers, k),
        forall|j: int|
            k < j < n && is_valid_header(headers, j) ==> header_name(headers[j].0) != header_name(
                headers[k].0,
            ),
    ensures
        converted(headers, n).dom().contains(header_name(headers[k].0).unwrap()),
        converted(headers, n)[header_name(headers[k].0).unwrap()] == encode_utf8(headers[k].1),
    decreases n,
{
    let name = header_name(headers[k].0).unwrap();
    let before = converted(headers, n - 1);
    let last = headers[n - 1];
    assert(converted(headers, n) == if is_header_value(last.1) && header_name(last.0) is Some {
        before.insert(header_name(last.0).unwrap(), encode_utf8(last.1))
    } else {
        before
    });
    if n - 1 > k {
        lemma_later_header_wins(headers, n - 1, k);
        if is_valid_header(headers, n - 1) {
            assert(header_name(last.0) != header_name(headers[k].0));
            assert(header_name(last.0).unwrap() != name);
        }
    }
}

/// Where no name occurs twice, every valid header that is looked at is in the
/// map with its own value.
pub proof fn lemma_distinct_headers_all_kept(headers: Seq<(Seq<char>, Seq<char>)>, n: int, k: int)
    requires
        0 <= k < n <= headers.len(),
        distinct_names(headers),
        is_valid_header(headers, k),
    ensures
        converted(headers, n)[header_name(headers[k].0).unwrap()] == encode_utf8(headers[k].1),
        converted(headers, n).dom().contains(header_name(headers[k].0).unwrap()),
{
    assert forall|j: int| k < j < n && is_valid_header(headers, j) implies header_name(
        headers[j].0,
    ) != header_name(headers[k].0) by {
        assert(header_name(headers[k].0) != header_name(headers[j].0));
    }
    lemma_later_header_wins(headers, n, k);
}

/// Convert headers to header map: the first 2002 headers at most are looked
/// at, and those that are no valid header are left out. Of two headers with
/// one name the later wins.
pub fn convert_headers(headers: &Headers) -> (map: http::HeaderMap<http::HeaderValue>)
    ensures
        header_entries(map) == converted(header_texts(headers@), scanned(headers@.len() as int)),
{
    let ghost texts = header_texts(headers@);
    let mut map = new_header_map();
    let mut i: usize = 0;
    while i < headers.len() && i < HEADER_SCAN_LIMIT
        invariant
            i <= headers@.len(),
            i <= HEADER_SCAN_LIMIT,
            texts == header_texts(headers@),
            header_entries(map) == converted(texts, i as int),
        decreases headers@.len() - i,
    {
        let name = headers[i].0.as_str();
        let value = headers[i].1.as_str();
        proof {
            assert(texts[i as int] == (name@, value@));
            lemma_converted_size(texts, i as int);
        }
        if valid_value(value) {
            if valid_name(name) {
                insert_header(&mut map, name, value);
            }
        }
        i = i + 1;
    }
    map
}

// ---------------------------------------------------------------------------
// What is written
// ---------------------------------------------------------------------------

/// Whether `http::Method::from_bytes` takes a text as a method.
pub uninterp spec fn is_method(method: Seq<char>) -> bool;

/// Whether `http::Uri::from_str` takes a text as a URI.
pub uninterp spec fn is_uri(uri: Seq<char>) -> bool;

/// `http::Method::from_bytes`: whether a text is an HTTP method.
#[verifier::external_body]
fn valid_method(method: &str) -> (r: bool)
    ensures
        r == is_method(method@),
{
    http::Method::from_bytes(method.as_bytes()).is_ok()
}

/// `http::Uri::from_str`: whether a text is a URI.
#[verifier::external_body]
fn valid_uri(uri: &str) -> (r: bool)
    ensures
        r == is_uri(uri@),
{
    uri.parse::<http::Uri>().is_ok()
}

/// `http::StatusCode::from_u16`: a number is a status code when it is at
/// least 100 and less than 1000.
#[verifier::external_body]
fn valid_status(status: u16) -> (r: bool)
    ensures
        r == (100 <= status < 1000),
{
    http::StatusCode::from_u16(status).is_ok()
}

/// The status that stands for a number that is no status code: 417.
pub const EXPECTATION_FAILED: u16 = 417;

/// The status that the policy is built from.
pub open spec fn policy_status(status: u16) -> u16 {
    if 100 <= status < 1000 {
        status
    } else {
        EXPECTATION_FAILED
    }
}

/// The method that the policy is built from: the given one where it is a
/// method, else `GET`.
pub open spec fn policy_method(method: Seq<char>) -> Seq<char> {
    if is_method(method) {
        method
    } else {
        "GET"@
    }
}

/// The key of a cache entry: the method, a colon, and the URL.
pub open spec fn key_text(method: Seq<char>, url: Seq<char>) -> Seq<char> {
    method + ":"@ + url
}

/// The key under which a page is stored.
pub fn cache_key(method: &str, url: &str) -> (key: String)
    ensures
        key@ == key_text(method@, url@),
{
    let mut key = joined(method, ":");
    key.append(url);
    key
}

/// The HTTP version that a protocol name of the browser stands for; 1.1 for a
/// name that is not known.
pub open spec fn version_of(protocol: Seq<char>) -> HttpVersion {
    if protocol == "http/0.9"@ {
        HttpVersion::Http09
    } else if protocol == "http/1"@ || protocol == "http/1.0"@ {
        HttpVersion::Http10
    } else if protocol == "http/1.1"@ {
        HttpVersion::Http11
    } else if protocol == "http/2.0"@ || protocol == "http/2"@ {
        HttpVersion::H2
    } else if protocol == "http/3.0"@ || protocol == "http/3"@ {
        HttpVersion::H3
    } else {
        HttpVersion::Http11
    }
}

/// The HTTP version of a protocol name.
pub fn http_version(protocol: &str) -> (v: HttpVersion)
    ensures
        v == version_of(protocol@),
{
    if str_eq(protocol, "http/0.9") {
        HttpVersion::Http09
    } else if str_eq(protocol, "http/1") || str_eq(protocol, "http/1.0") {
        HttpVersion::Http10
    } else if str_eq(protocol, "http/1.1") {
        HttpVersion::Http11
    } else if str_eq(protocol, "http/2.0") || str_eq(protocol, "http/2") {
        HttpVersion::H2
    } else if str_eq(protocol, "http/3.0") || str_eq(protocol, "http/3") {
        HttpVersion::H3
    } else {
        HttpVersion::Http11
    }
}

/// One write to the cache.
#[derive(Debug)]
pub struct CacheWrite {
    /// The key of the entry.
    pub key: String,
    /// The request that the policy is built from.
    pub request: HttpRequestLike,
    /// The response that the policy is built from: status and headers only.
    pub response: HttpResponseLike,
    /// The response that is stored.
    pub stored: HttpResponse,
}

/// Store the page to cache to be re-used across HTTP request: prepare the
/// write. The policy's request holds the method, the URI and the request's
/// headers; its response holds the status and the response's headers; the body
/// is not looked at. No write is prepared for a URL that is no URI.
pub fn put_hybrid_cache(
    cache_key: &str,
    http_response: HttpResponse,
    method: &str,
    http_request_headers: Headers,
) -> (write: Option<CacheWrite>)
    ensures
        write is Some == is_uri(http_response.url@),
        write matches Some(w) ==> {
            &&& w.key@ == cache_key@
            &&& w.stored == http_response
            &&& w.request.uri@ == http_response.url@
            &&& w.request.method@ == policy_method(method@)
            &&& header_entries(w.request.headers) == converted(
                header_texts(http_request_headers@),
                scanned(http_request_headers@.len() as int),
            )
            &&& w.response.status == policy_status(http_response.status)
            &&& header_entries(w.response.headers) == converted(
                header_texts(http_response.headers@),
                scanned(http_response.headers@.len() as int),
            )
        },
{
    if !valid_uri(http_response.url.as_str()) {
        return None;
    }
    let request = HttpRequestLike {
        uri: http_response.url.clone(),
        method: if valid_method(method) {
            method.to_owned()
        } else {
            "GET".to_owned()
        },
        headers: convert_headers(&http_request_headers),
    };
    let response = HttpResponseLike {
        status: if valid_status(http_response.status) {
            http_response.status
        } else {
            EXPECTATION_FAILED
        },
        headers: convert_headers(&http_response.headers),
    };
    Some(CacheWrite { key: cache_key.to_owned(), request, response, stored: http_response })
}

/// The URL as `url::Url::parse` writes it back; `None` where the text is no
/// URL.
pub uninterp spec fn url_text(source: Seq<char>) -> Option<Seq<char>>;

/// `url::Url::parse` and `Url::as_str`: the URL in its normal form.
#[verifier::external_body]
fn normal_url(source: &str) -> (u: Option<String>)
    ensures
        match u {
            Some(t) => url_text(source@) == Some(t@),
            None => url_text(source@) is None,
        },
{
    Some(url::Url::parse(source).ok()?.as_str().to_string())
}

/// What the browser reported of a navigation, as far as the cache needs it.
pub struct Navigation<'a> {
    /// Whether the page was set on the browser before this fetch.
    pub page_set: bool,
    /// The URL that was asked for.
    pub source: &'a str,
    /// The method of the request.
    pub method: &'a str,
    /// The protocol of the response.
    pub protocol: &'a str,
    /// The status of the response.
    pub status: u16,
}

/// The response to store for a fresh navigation, and its key; `None` for a
/// page that was set before, and for a source that is no URL.
pub fn cache_entry(nav: &Navigation, body: Option<&Vec<u8>>, response_headers: Headers) -> (entry:
    Option<(String, HttpResponse)>)
    ensures
        entry is Some == (!nav.page_set && url_text(nav.source@) is Some),
        entry matches Some((key, stored)) ==> {
            &&& key@ == key_text(nav.method@, nav.source@)
            &&& Some(stored.url@) == url_text(nav.source@)
            &&& stored.body@ == (match body {
                Some(b) => b@,
                None => Seq::<u8>::empty(),
            })
            &&& stored.status == nav.status
            &&& stored.version == version_of(nav.protocol@)
            &&& stored.headers == response_headers
        },
{
    if nav.page_set {
        return None;
    }
    match normal_url(nav.source) {
        None => None,
        Some(url) => {
            let stored = HttpResponse {
                url,
                body: match body {
                    Some(b) => b.clone(),
                    None => Vec::new(),
                },
                status: nav.status,
                version: http_version(nav.protocol),
                headers: response_headers,
            };
            Some((cache_key(nav.method, nav.source), stored))
        },
    }
}

/// Two writes of one page give one key: the cache keeps what was written
/// last.
pub proof fn lemma_key_is_function(method: Seq<char>, url: Seq<char>)
    ensures
        key_text(method, url).len() == method.len() + 1 + url.len(),
        crate::text::is_prefix(method, key_text(method, url)),
        crate::text::is_suffix(url, key_text(method, url)),
{
    reveal_strlit(":");
    let k = key_text(method, url);
    assert(k.subrange(0, method.len() as int) =~= method);
    assert(k.subrange(k.len() - url.len(), k.len() as int) =~= url);
}

} // verus!
