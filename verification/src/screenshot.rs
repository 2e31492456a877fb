//! Screenshots: which parameters the browser is given, whether the image is
//! saved and where, and whether its bytes go into the page response.

use vstd::prelude::*;
use vstd::utf8::encode_utf8;
use crate::configuration::{CaptureScreenshotFormat, ScreenShotConfig, ScreenshotParams};
use crate::page::PageResponse;
use crate::strings::{joined, str_eq};

verus! {

// ---------------------------------------------------------------------------
// File names
// ---------------------------------------------------------------------------

/// A byte that stands for itself in a file name: an ASCII letter or digit.
pub open spec fn is_plain(b: u8) -> bool {
    (0x30 <= b <= 0x39) || (0x41 <= b <= 0x5a) || (0x61 <= b <= 0x7a)
}

/// The character of a hexadecimal digit, capital letters for ten and above.
pub open spec fn hex_digit(n: u8) -> char {
    if n < 10 {
        (0x30 + n) as char
    } else {
        (0x41 + n - 10) as char
    }
}

/// A byte in percent-encoding: itself where it is plain, else `%` and its two
/// hexadecimal digits.
pub open spec fn encoded_byte(b: u8) -> Seq<char> {
    if is_plain(b) {
        seq![b as char]
    } else {
        seq!['%', hex_digit(b / 16), hex_digit(b % 16)]
    }
}

/// Bytes in percent-encoding, one after the other.
pub open spec fn percent_encoded(bytes: Seq<u8>) -> Seq<char>
    decreases bytes.len(),
{
    if bytes.len() == 0 {
        Seq::empty()
    } else {
        percent_encoded(bytes.drop_last()) + encoded_byte(bytes.last())
    }
}

/// `percent_encoding::utf8_percent_encode` with the set `NON_ALPHANUMERIC`:
/// every byte of the text but ASCII letters and digits is written as `%` and
/// two capital hexadecimal digits.
#[verifier::external_body]
fn percent_encode(input: &str) -> (r: String)
    ensures
        r@ == percent_encoded(encode_utf8(input@)),
{
    percent_encoding::utf8_percent_encode(input, percent_encoding::NON_ALPHANUMERIC).to_string()
}

/// The name of the file that holds something of a page: the page's URL in
/// percent-encoding, after `before` and followed by `after`.
pub open spec fn file_name(before: Seq<char>, target_url: Seq<char>, after: Seq<char>) -> Seq<
    char,
> {
    before + percent_encoded(encode_utf8(target_url)) + after
}

/// Get the output path of a screenshot: the name of the file below the
/// output directory, made of the URL and the format's extension.
pub fn create_output_path(target_url: &str, format: &str) -> (name: String)
    ensures
        name@ == file_name(Seq::empty(), target_url@, format@),
{
    let mut name = percent_encode(target_url);
    name.append(format);
    assert(name@ =~= file_name(Seq::empty(), target_url@, format@));
    name
}

/// The path of the temporary file that takes the body of a page: the
/// process's spill directory, then the URL.
pub fn spill_path(directory: &str, target_url: &str) -> (path: String)
    ensures
        path@ == file_name(directory@, target_url@, Seq::empty()),
{
    let encoded = percent_encode(target_url);
    let path = joined(directory, encoded.as_str());
    assert(path@ =~= file_name(directory@, target_url@, Seq::empty()));
    path
}

/// The name of a percent-encoded file holds nothing but letters, digits and
/// `%`: no separator of a path comes from the URL.
pub proof fn lemma_encoded_is_flat(bytes: Seq<u8>, i: int)
    requires
        0 <= i < percent_encoded(bytes).len(),
    ensures
        ({
            let c = percent_encoded(bytes)[i];
            c == '%' || ('0' <= c <= '9') || ('A' <= c <= 'Z') || ('a' <= c <= 'z')
        }),
    decreases bytes.len(),
{
    if bytes.len() > 0 {
        let head = percent_encoded(bytes.drop_last());
        if i < head.len() {
            lemma_encoded_is_flat(bytes.drop_last(), i);
        } else {
            let b = bytes.last();
            let e = encoded_byte(b);
            assert(percent_encoded(bytes)[i] == e[i - head.len()]);
            assert(b / 16 < 16 && b % 16 < 16);
        }
    }
}

// ---------------------------------------------------------------------------
// Parameters
// ---------------------------------------------------------------------------

/// The switches of the surroundings, as the caller read them.
#[derive(Debug)]
pub struct ScreenshotEnv {
    /// The directory for screenshots that no configuration places.
    pub directory: Option<String>,
    /// Whether screenshots show the full page.
    pub full_page: Option<String>,
    /// Whether screenshots leave the background out.
    pub omit_background: Option<String>,
}

/// The directory that takes screenshots where nothing else is said.
pub open spec fn default_directory() -> Seq<char> {
    "./storage/"@
}

/// What a switch of the surroundings says: on where it is not set, else on
/// exactly where its text is `true`.
pub open spec fn switch(setting: Option<String>) -> bool {
    match setting {
        Some(t) => t@ == "true"@,
        None => true,
    }
}

/// Read a switch of the surroundings.
pub fn env_flag(setting: &Option<String>) -> (r: bool)
    ensures
        r == switch(*setting),
{
    match setting {
        Some(t) => str_eq(t.as_str(), "true"),
        None => true,
    }
}

/// The parameters that the browser is given, every default filled in.
#[derive(Debug, Clone, Copy, PartialEq, Eq, Structural)]
pub struct ResolvedParams {
    /// The format of the image.
    pub format: CaptureScreenshotFormat,
    /// The full page is shown.
    pub full_page: bool,
    /// The background is left out.
    pub omit_background: bool,
    /// The compression quality, where one is set.
    pub quality: Option<i64>,
    /// Whether the capture goes beyond the viewport, where it is said.
    pub capture_beyond_viewport: Option<bool>,
    /// Whether the capture is made from the surface, where it is said.
    pub from_surface: Option<bool>,
}

/// What `ScreenshotParams::resolve` gives.
pub open spec fn resolved(params: ScreenshotParams, env: ScreenshotEnv) -> ResolvedParams {
    ResolvedParams {
        format: match params.cdp_params.format {
            Some(f) => f,
            None => CaptureScreenshotFormat::Png,
        },
        full_page: match params.full_page {
            Some(v) => v,
            None => switch(env.full_page),
        },
        omit_background: match params.omit_background {
            Some(v) => v,
            None => switch(env.omit_background),
        },
        quality: params.cdp_params.quality,
        capture_beyond_viewport: params.cdp_params.capture_beyond_viewport,
        from_surface: params.cdp_params.from_surface,
    }
}

impl ScreenshotParams {
    /// Fill in the defaults: the format is png unless set; the full page and
    /// the background follow the surroundings unless set; the rest is handed
    /// on as it is.
    pub fn resolve(&self, env: &ScreenshotEnv) -> (r: ResolvedParams)
        ensures
            r == resolved(*self, *env),
    {
        ResolvedParams {
            format: match self.cdp_params.format {
                Some(f) => f,
                None => CaptureScreenshotFormat::Png,
            },
            full_page: match self.full_page {
                Some(v) => v,
                None => env_flag(&env.full_page),
            },
            omit_background: match self.omit_background {
                Some(v) => v,
                None => env_flag(&env.omit_background),
            },
            quality: self.cdp_params.quality,
            capture_beyond_viewport: self.cdp_params.capture_beyond_viewport,
            from_surface: self.cdp_params.from_surface,
        }
    }
}

/// The parameters of a screenshot that no configuration asks for.
pub open spec fn default_params(env: ScreenshotEnv) -> ResolvedParams {
    ResolvedParams {
        format: CaptureScreenshotFormat::Png,
        full_page: switch(env.full_page),
        omit_background: switch(env.omit_background),
        quality: None,
        capture_beyond_viewport: None,
        from_surface: None,
    }
}

// ---------------------------------------------------------------------------
// The plan
// ---------------------------------------------------------------------------

/// What is done for the screenshot of a page.
#[derive(Debug)]
pub struct ScreenshotPlan {
    /// The parameters for the browser.
    pub params: ResolvedParams,
    /// The name of the file to save the image to, below the output directory;
    /// `None` where the image is not saved.
    pub file: Option<String>,
    /// The output directory where the configuration names none.
    pub directory: String,
    /// Whether the bytes of the image go into the page response.
    pub keep_bytes: bool,
}

/// The extension of a format's files.
pub open spec fn extension(format: CaptureScreenshotFormat) -> Seq<char> {
    "."@ + format.name()
}

/// The plan for a page under a configuration, or under none.
pub open spec fn plan_of(
    target_url: Seq<char>,
    screenshot: Option<ScreenShotConfig>,
    env: ScreenshotEnv,
    plan: ScreenshotPlan,
) -> bool {
    match screenshot {
        Some(ss) => {
            let params = resolved(ss.params, env);
            &&& plan.params == params
            &&& plan.keep_bytes == ss.bytes
            &&& plan.directory@ == default_directory()
            &&& match plan.file {
                Some(f) => ss.save && f@ == file_name(
                    Seq::empty(),
                    target_url,
                    extension(params.format),
                ),
                None => !ss.save,
            }
        },
        None => {
            &&& plan.params == default_params(env)
            &&& !plan.keep_bytes
            &&& plan.directory@ == (match env.directory {
                Some(d) => d@,
                None => default_directory(),
            })
            &&& plan.file matches Some(f) && f@ == file_name(Seq::empty(), target_url, ".png"@)
        },
    }
}

/// Perform a screenshot shortcut: decide what is done. Under a configuration
/// the image is saved where that is asked, and its bytes are kept where that
/// is asked; under none it is saved as png to the directory of the
/// surroundings, and no bytes are kept.
pub fn perform_screenshot(
    target_url: &str,
    screenshot: &Option<ScreenShotConfig>,
    env: &ScreenshotEnv,
) -> (plan: ScreenshotPlan)
    ensures
        plan_of(target_url@, *screenshot, *env, plan),
{
    match screenshot {
        Some(ss) => {
            let params = ss.params.resolve(env);
            let file = if ss.save {
                let ext = joined(".", params.format.to_string().as_str());
                Some(create_output_path(target_url, ext.as_str()))
            } else {
                None
            };
            ScreenshotPlan { params, file, directory: "./storage/".to_owned(), keep_bytes: ss.bytes }
        },
        None => {
            let params = ResolvedParams {
                format: CaptureScreenshotFormat::Png,
                full_page: env_flag(&env.full_page),
                omit_background: env_flag(&env.omit_background),
                quality: None,
                capture_beyond_viewport: None,
                from_surface: None,
            };
            let directory = match &env.directory {
                Some(d) => d.clone(),
                None => "./storage/".to_owned(),
            };
            ScreenshotPlan {
                params,
                file: Some(create_output_path(target_url, ".png")),
                directory,
                keep_bytes: false,
            }
        },
    }
}

/// Whether a screenshot is taken at all: a configuration was handed in, or
/// screenshots are on by default.
pub fn wants_screenshot(configured: bool, on_by_default: bool) -> (r: bool)
    ensures
        r == (configured || on_by_default),
{
    configured || on_by_default
}

/// Put the image into the page response, where the plan keeps its bytes and
/// the browser made one; a failed screenshot changes nothing.
pub fn attach_screenshot(page_response: &mut PageResponse, keep_bytes: bool, image: Option<Vec<u8>>)
    ensures
        final(page_response).screenshot_bytes == (match image {
            Some(b) => if keep_bytes {
                Some(b)
            } else {
                old(page_response).screenshot_bytes
            },
            None => old(page_response).screenshot_bytes,
        }),
        final(page_response).content == old(page_response).content,
        final(page_response).headers == old(page_response).headers,
        final(page_response).status_code == old(page_response).status_code,
        final(page_response).final_url == old(page_response).final_url,
        final(page_response).error_for_status == old(page_response).error_for_status,
        final(page_response).openai_credits_used == old(page_response).openai_credits_used,
        final(page_response).extra_ai_data == old(page_response).extra_ai_data,
{
    match image {
        Some(b) => {
            if keep_bytes {
                page_response.screenshot_bytes = Some(b);
            }
        },
        None => {},
    }
}

} // verus!
