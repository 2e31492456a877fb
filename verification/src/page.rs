//! The page response: what a fetch hands back to the crawl loop.

use vstd::prelude::*;

verus! {

/// `http::HeaderMap`: a map of header names to values. What it holds is
/// spoken of where headers are converted.
#[verifier::external_type_specification]
#[verifier::external_body]
#[verifier::reject_recursive_types(T)]
pub struct ExHeaderMap<T>(http::HeaderMap<T>);

/// `http::HeaderValue`: the value of a header. Nothing of its inside is known
/// here.
#[verifier::external_type_specification]
#[verifier::external_body]
pub struct ExHeaderValue(http::HeaderValue);

/// The status code of a response that says nothing else: 200.
pub const STATUS_OK: u16 = 200;

/// The tokens that one request to the language model used.
#[derive(Debug, Clone, Copy, PartialEq, Eq, Structural)]
pub struct OpenAIUsage {
    /// Number of tokens in the prompt.
    pub prompt_tokens: u32,
    /// Number of tokens in the generated completion.
    pub completion_tokens: u32,
    /// Total number of tokens used in the request (prompt + completion).
    pub total_tokens: u32,
    /// Is the request cached?
    pub cached: bool,
}

impl OpenAIUsage {
    /// The usage of a request that was not made.
    pub open spec fn unused() -> OpenAIUsage {
        OpenAIUsage { prompt_tokens: 0, completion_tokens: 0, total_tokens: 0, cached: false }
    }
}

impl Default for OpenAIUsage {
    fn default() -> (r: Self)
        ensures
            r == OpenAIUsage::unused(),
    {
        OpenAIUsage { prompt_tokens: 0, completion_tokens: 0, total_tokens: 0, cached: false }
    }
}

/// What the language model made of one prompt.
#[derive(Debug)]
pub struct AIResults {
    /// The prompt used for the GPT.
    pub input: String,
    /// The js output of the GPT response.
    pub js_output: String,
    /// The content output returned from the GPT response that is not a browser script, example: extracted data from the markup.
    pub content_output: Vec<String>,
    /// The image of the page.
    pub screenshot_output: Option<Vec<u8>>,
    /// The error that occured if any.
    pub error: Option<String>,
}

/// The response of a web page.
#[derive(Debug)]
pub struct PageResponse {
    /// The page response resource. `None` only where the fetch gave no byte.
    pub content: Option<Vec<u8>>,
    /// The headers of the response. (Always None if a webdriver protocol is used for fetching.).
    pub headers: Option<http::HeaderMap<http::HeaderValue>>,
    /// The status code of the request.
    pub status_code: u16,
    /// The final url destination after any redirects.
    pub final_url: Option<String>,
    /// The message of the response error if any: the status that was refused,
    /// or what the transport said.
    pub error_for_status: Option<Result<u16, String>>,
    /// The screenshot bytes of the page. The ScreenShotConfig bytes boolean needs to be set to true.
    pub screenshot_bytes: Option<Vec<u8>>,
    /// The credits used from OpenAI in order.
    pub openai_credits_used: Option<Vec<OpenAIUsage>>,
    /// The extra data from the AI, example extracting data etc...
    pub extra_ai_data: Option<Vec<AIResults>>,
}

impl PageResponse {
    /// The response is empty: no content, no headers, status 200, nothing else.
    pub open spec fn is_empty(self) -> bool {
        &&& self.content is None
        &&& self.headers is None
        &&& self.status_code == STATUS_OK
        &&& self.final_url is None
        &&& self.error_for_status is None
        &&& self.screenshot_bytes is None
        &&& self.openai_credits_used is None
        &&& self.extra_ai_data is None
    }
}

impl Default for PageResponse {
    fn default() -> (r: Self)
        ensures
            r.is_empty(),
    {
        PageResponse {
            content: None,
            headers: None,
            status_code: STATUS_OK,
            final_url: None,
            error_for_status: None,
            screenshot_bytes: None,
            openai_credits_used: None,
            extra_ai_data: None,
        }
    }
}

/// The line that the engine writes to its log for a message and the subject
/// it is about.
pub fn log(message: &str, data: &str) -> (line: String)
    ensures
        line@ == message@ + " - "@ + data@,
{
    let mut line = message.to_owned();
    line.append(" - ");
    line.append(data);
    line
}

} // verus!
