//! What a caller hands to a fetch: the readiness conditions to wait for, the
//! screenshot to take, and the answer to an authorization challenge.

use vstd::prelude::*;
use core::time::Duration;

verus! {

/// `std::path::PathBuf`: a path of the file system. It is carried, never read.
#[verifier::external_type_specification]
#[verifier::external_body]
pub struct ExPathBuf(std::path::PathBuf);

/// Wait for network request with optional timeout.
#[derive(Debug, Clone)]
pub struct WaitForIdleNetwork {
    /// The max time to wait for the network. `None` removes the timeout.
    pub timeout: Option<Duration>,
}

impl WaitForIdleNetwork {
    /// Create new WaitForIdleNetwork with timeout.
    pub fn new(timeout: Option<Duration>) -> (r: Self)
        ensures
            r.timeout == timeout,
    {
        Self { timeout }
    }
}

impl Default for WaitForIdleNetwork {
    fn default() -> (r: Self)
        ensures
            r.timeout is None,
    {
        Self { timeout: None }
    }
}

/// Wait for a selector with optional timeout.
#[derive(Debug, Clone)]
pub struct WaitForSelector {
    /// The max time to wait for the selector. `None` removes the timeout.
    pub timeout: Option<Duration>,
    /// The selector wait for
    pub selector: String,
}

impl WaitForSelector {
    /// Create new WaitForSelector with timeout.
    pub fn new(timeout: Option<Duration>, selector: String) -> (r: Self)
        ensures
            r.timeout == timeout,
            r.selector == selector,
    {
        Self { timeout, selector }
    }
}

impl Default for WaitForSelector {
    fn default() -> (r: Self)
        ensures
            r.timeout is None,
            r.selector@ == Seq::<char>::empty(),
    {
        Self { timeout: None, selector: String::new() }
    }
}

/// Wait for with a delay. Should only be used for testing purposes.
#[derive(Debug, Clone)]
pub struct WaitForDelay {
    /// The time to wait. `None` waits for nothing.
    pub timeout: Option<Duration>,
}

impl WaitForDelay {
    /// Create new WaitForDelay with timeout.
    pub fn new(timeout: Option<Duration>) -> (r: Self)
        ensures
            r.timeout == timeout,
    {
        Self { timeout }
    }
}

impl Default for WaitForDelay {
    fn default() -> (r: Self)
        ensures
            r.timeout is None,
    {
        Self { timeout: None }
    }
}

/// The wait for options for the page. Multiple options can be set.
#[derive(Debug, Clone)]
pub struct WaitFor {
    /// The max time to wait for the selector.
    pub selector: Option<WaitForSelector>,
    /// Wait for idle network 500ms.
    pub idle_network: Option<WaitForIdleNetwork>,
    /// Wait for delay. Should only be used for testing.
    pub delay: Option<WaitForDelay>,
    /// Wait for page navigations.
    pub page_navigations: bool,
}

impl WaitFor {
    /// Create new WaitFor with timeout: the one timeout bounds the wait for the
    /// idle network and the wait for the selector, where they are asked for.
    pub fn new(
        timeout: Option<Duration>,
        delay: Option<WaitForDelay>,
        page_navigations: bool,
        idle_network: bool,
        selector: Option<String>,
    ) -> (r: Self)
        ensures
            r.page_navigations == page_navigations,
            r.delay == delay,
            r.idle_network == (if idle_network {
                Some(WaitForIdleNetwork { timeout })
            } else {
                None
            }),
            r.selector == (match selector {
                Some(s) => Some(WaitForSelector { timeout, selector: s }),
                None => None,
            }),
    {
        Self {
            page_navigations,
            idle_network: if idle_network {
                Some(WaitForIdleNetwork::new(timeout))
            } else {
                None
            },
            selector: match selector {
                Some(s) => Some(WaitForSelector::new(timeout, s)),
                None => None,
            },
            delay,
        }
    }
}

impl Default for WaitFor {
    fn default() -> (r: Self)
        ensures
            r.selector is None,
            r.idle_network is None,
            r.delay is None,
            !r.page_navigations,
    {
        Self { selector: None, idle_network: None, delay: None, page_navigations: false }
    }
}

/// Capture screenshot options for chrome.
#[derive(Debug, Clone, Copy, PartialEq, Eq, Structural, Hash)]
pub enum CaptureScreenshotFormat {
    /// jpeg format
    Jpeg,
    /// png format
    Png,
    /// webp format
    Webp,
}

impl Default for CaptureScreenshotFormat {
    fn default() -> (r: Self)
        ensures
            r == CaptureScreenshotFormat::Png,
    {
        CaptureScreenshotFormat::Png
    }
}

impl CaptureScreenshotFormat {
    /// The lowercase name of the format.
    pub open spec fn name(self) -> Seq<char> {
        match self {
            CaptureScreenshotFormat::Jpeg => "jpeg"@,
            CaptureScreenshotFormat::Png => "png"@,
            CaptureScreenshotFormat::Webp => "webp"@,
        }
    }

    /// convert the format to a lowercase string
    pub fn to_string(&self) -> (r: String)
        ensures
            r@ == self.name(),
    {
        match self {
            CaptureScreenshotFormat::Jpeg => "jpeg".to_owned(),
            CaptureScreenshotFormat::Png => "png".to_owned(),
            CaptureScreenshotFormat::Webp => "webp".to_owned(),
        }
    }
}

/// Capture page screenshot: what the browser protocol takes, but the clip
/// region, which the caller hands to the browser as it is.
#[derive(Debug, Clone, Copy)]
pub struct CaptureScreenshotParams {
    /// Image compression format (defaults to png).
    pub format: Option<CaptureScreenshotFormat>,
    /// Compression quality from range [0..100] (jpeg only).
    pub quality: Option<i64>,
    /// Capture the screenshot from the surface, rather than the view. Defaults to true.
    pub from_surface: Option<bool>,
    /// Capture the screenshot beyond the viewport. Defaults to false.
    pub capture_beyond_viewport: Option<bool>,
}

impl Default for CaptureScreenshotParams {
    fn default() -> (r: Self)
        ensures
            r.format is None,
            r.quality is None,
            r.from_surface is None,
            r.capture_beyond_viewport is None,
    {
        Self { format: None, quality: None, from_surface: None, capture_beyond_viewport: None }
    }
}

/// The screenshot params for the page.
#[derive(Debug, Clone, Copy)]
pub struct ScreenshotParams {
    /// Chrome DevTools Protocol screenshot options.
    pub cdp_params: CaptureScreenshotParams,
    /// Take full page screenshot.
    pub full_page: Option<bool>,
    /// Make the background transparent (png only).
    pub omit_background: Option<bool>,
}

impl ScreenshotParams {
    /// Create a new ScreenshotParams.
    pub fn new(
        cdp_params: CaptureScreenshotParams,
        full_page: Option<bool>,
        omit_background: Option<bool>,
    ) -> (r: Self)
        ensures
            r.cdp_params == cdp_params,
            r.full_page == full_page,
            r.omit_background == omit_background,
    {
        Self { cdp_params, full_page, omit_background }
    }
}

impl Default for ScreenshotParams {
    fn default() -> (r: Self)
        ensures
            r.cdp_params.format is None,
            r.cdp_params.quality is None,
            r.cdp_params.from_surface is None,
            r.cdp_params.capture_beyond_viewport is None,
            r.full_page is None,
            r.omit_background is None,
    {
        Self { cdp_params: CaptureScreenshotParams::default(), full_page: None, omit_background: None }
    }
}

/// Screenshot configuration.
#[derive(Debug, Clone)]
pub struct ScreenShotConfig {
    /// The screenshot params.
    pub params: ScreenshotParams,
    /// Return the bytes of the screenshot on the Page.
    pub bytes: bool,
    /// Store the screenshot to disk. This can be used with output_dir. If disabled will not store the file to the output directory.
    pub save: bool,
    /// The output directory to store the file. Parent folders may be created inside the directory.
    pub output_dir: Option<std::path::PathBuf>,
}

impl ScreenShotConfig {
    /// Create a new screenshot configuration.
    pub fn new(
        params: ScreenshotParams,
        bytes: bool,
        save: bool,
        output_dir: Option<std::path::PathBuf>,
    ) -> (r: Self)
        ensures
            r.params == params,
            r.bytes == bytes,
            r.save == save,
            r.output_dir == output_dir,
    {
        Self { params, bytes, save, output_dir }
    }
}

impl Default for ScreenShotConfig {
    fn default() -> (r: Self)
        ensures
            r.params.full_page is None,
            r.params.omit_background is None,
            r.params.cdp_params.format is None,
            r.params.cdp_params.quality is None,
            r.params.cdp_params.from_surface is None,
            r.params.cdp_params.capture_beyond_viewport is None,
            !r.bytes,
            !r.save,
            r.output_dir is None,
    {
        Self { params: ScreenshotParams::default(), bytes: false, save: false, output_dir: None }
    }
}

/// The decision on what to do in response to the authorization challenge.
/// Default means deferring to the default behavior of the net stack.
#[derive(Debug, Clone, Copy, PartialEq, Eq, Structural, Hash)]
pub enum AuthChallengeResponseResponse {
    /// The default.
    Default,
    /// Cancel the authentication prompt.
    CancelAuth,
    /// Provide credentials.
    ProvideCredentials,
}

impl Default for AuthChallengeResponseResponse {
    fn default() -> (r: Self)
        ensures
            r == AuthChallengeResponseResponse::Default,
    {
        AuthChallengeResponseResponse::Default
    }
}

/// Response to an AuthChallenge.
#[derive(Debug, Clone)]
pub struct AuthChallengeResponse {
    /// The decision on what to do in response to the authorization challenge.
    pub response: AuthChallengeResponseResponse,
    /// The username to provide, possibly empty. Should only be set if response is
    /// ProvideCredentials.
    pub username: Option<String>,
    /// The password to provide, possibly empty. Should only be set if response is
    /// ProvideCredentials.
    pub password: Option<String>,
}

impl Default for AuthChallengeResponse {
    fn default() -> (r: Self)
        ensures
            r.response == AuthChallengeResponseResponse::Default,
            r.username is None,
            r.password is None,
    {
        Self { response: AuthChallengeResponseResponse::Default, username: None, password: None }
    }
}

} // verus!
