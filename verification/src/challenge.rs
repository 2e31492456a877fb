//! Detection of bot-challenge interstitials, and the one escalation pass that
//! tries to get past them.

use vstd::prelude::*;
use vstd::utf8::is_ascii_chars;
use core::time::Duration;
use crate::configuration::{WaitFor, WaitForDelay, WaitForIdleNetwork};
use crate::text::{ascii_bytes, bytes_of_ascii, ends_with, is_prefix, is_suffix, starts_with};
use crate::wait::duration_from_secs;

verus! {

/// The end of a challenge page that links to its vendor.
pub open spec fn link_marker() -> Seq<u8> {
    ascii_bytes("target=\"_blank\">Cloudflare</a></div></div></div></body></html>"@)
}

/// The end of a challenge page that names its vendor.
pub open spec fn banner_marker() -> Seq<u8> {
    ascii_bytes("Performance &amp; security by Cloudflare</div></div></div></body></html>"@)
}

/// The start of a challenge page that is not rendered yet.
pub open spec fn head_marker() -> Seq<u8> {
    ascii_bytes("<html><head>\n    <style global=\"\">"@)
}

/// The end of a challenge page that is not rendered yet: a hidden frame.
pub open spec fn frame_marker() -> Seq<u8> {
    ascii_bytes(
        "<iframe height=\"1\" width=\"1\" style=\"position: absolute; top: 0px; left: 0px; border: none; visibility: hidden;\"></iframe>\n\n</body></html>"@,
    )
}

/// The start of the challenge template as it is served.
pub open spec fn template_head() -> Seq<u8> {
    ascii_bytes("<html><head>\n    <style global="@)
}

/// The end of the challenge template as it is served.
pub open spec fn template_tail() -> Seq<u8> {
    ascii_bytes(
        ";</script><iframe height=\"1\" width=\"1\" style=\"position: absolute; top: 0px; left: 0px; border: none; visibility: hidden;\"></iframe>\n\n</body></html>"@,
    )
}

/// A body is a challenge page when it ends with one of the two vendor
/// markers, or starts with the template's head and ends with its hidden frame.
pub open spec fn is_challenge(body: Seq<u8>) -> bool {
    is_suffix(link_marker(), body) || is_suffix(banner_marker(), body) || (is_prefix(
        head_marker(),
        body,
    ) && is_suffix(frame_marker(), body))
}

/// A body is the challenge template as it was served, unresolved.
pub open spec fn is_raw_template(body: Seq<u8>) -> bool {
    is_prefix(template_head(), body) && is_suffix(template_tail(), body)
}

fn link_marker_bytes() -> (b: &'static [u8])
    ensures
        b@ == link_marker(),
{
    let s = "target=\"_blank\">Cloudflare</a></div></div></div></body></html>";
    proof {
        reveal_strlit("target=\"_blank\">Cloudflare</a></div></div></div></body></html>");
        assert(is_ascii_chars(s@));
    }
    bytes_of_ascii(s)
}

fn banner_marker_bytes() -> (b: &'static [u8])
    ensures
        b@ == banner_marker(),
{
    let s = "Performance &amp; security by Cloudflare</div></div></div></body></html>";
    proof {
        reveal_strlit("Performance &amp; security by Cloudflare</div></div></div></body></html>");
        assert(is_ascii_chars(s@));
    }
    bytes_of_ascii(s)
}

fn head_marker_bytes() -> (b: &'static [u8])
    ensures
        b@ == head_marker(),
{
    let s = "<html><head>\n    <style global=\"\">";
    proof {
        reveal_strlit("<html><head>\n    <style global=\"\">");
        assert(is_ascii_chars(s@));
    }
    bytes_of_ascii(s)
}

fn frame_marker_bytes() -> (b: &'static [u8])
    ensures
        b@ == frame_marker(),
{
    let s =
        "<iframe height=\"1\" width=\"1\" style=\"position: absolute; top: 0px; left: 0px; border: none; visibility: hidden;\"></iframe>\n\n</body></html>";
    proof {
        reveal_strlit(
            "<iframe height=\"1\" width=\"1\" style=\"position: absolute; top: 0px; left: 0px; border: none; visibility: hidden;\"></iframe>\n\n</body></html>",
        );
        assert(is_ascii_chars(s@));
    }
    bytes_of_ascii(s)
}

fn template_head_bytes() -> (b: &'static [u8])
    ensures
        b@ == template_head(),
{
    let s = "<html><head>\n    <style global=";
    proof {
        reveal_strlit("<html><head>\n    <style global=");
        assert(is_ascii_chars(s@));
    }
    bytes_of_ascii(s)
}

fn template_tail_bytes() -> (b: &'static [u8])
    ensures
        b@ == template_tail(),
{
    let s =
        ";</script><iframe height=\"1\" width=\"1\" style=\"position: absolute; top: 0px; left: 0px; border: none; visibility: hidden;\"></iframe>\n\n</body></html>";
    proof {
        reveal_strlit(
            ";</script><iframe height=\"1\" width=\"1\" style=\"position: absolute; top: 0px; left: 0px; border: none; visibility: hidden;\"></iframe>\n\n</body></html>",
        );
        assert(is_ascii_chars(s@));
    }
    bytes_of_ascii(s)
}

/// Whether a body is a challenge page.
pub fn detect(body: &[u8]) -> (r: bool)
    ensures
        r == is_challenge(body@),
{
    ends_with(body, link_marker_bytes()) || ends_with(body, banner_marker_bytes()) || (starts_with(
        body,
        head_marker_bytes(),
    ) && ends_with(body, frame_marker_bytes()))
}

/// Whether a body is the challenge template as it was served.
pub fn detect_raw_template(body: &[u8]) -> (r: bool)
    ensures
        r == is_raw_template(body@),
{
    starts_with(body, template_head_bytes()) && ends_with(body, template_tail_bytes())
}

/// The status code that reports a served challenge.
pub const FORBIDDEN: u16 = 403;

/// The status that a browser fetch reports: `Forbidden` where the response
/// was flagged as a challenge and the body still is the unresolved template,
/// else the backend's own status.
pub open spec fn reported_status(flagged: bool, body: Seq<u8>, status: u16) -> u16 {
    if flagged && is_raw_template(body) {
        FORBIDDEN
    } else {
        status
    }
}

/// The status code to report for a body that the browser captured.
pub fn force_status(flagged: bool, body: &[u8], status: u16) -> (r: u16)
    ensures
        r == reported_status(flagged, body@, status),
{
    if flagged && detect_raw_template(body) {
        FORBIDDEN
    } else {
        status
    }
}

/// One step of the escalation pass.
pub enum LadderAction {
    /// Hold the page to these conditions.
    Wait(WaitFor),
    /// Run the script that activates every frame of the page.
    ClickFrames,
    /// Capture the page's content again.
    Recapture,
}

/// The script that activates every frame of the page.
pub fn click_frames_script() -> (s: &'static str)
    ensures
        s@ == "document.querySelectorAll(\"iframe\").forEach(el=>el.click());"@,
{
    "document.querySelectorAll(\"iframe\").forEach(el=>el.click());"
}

/// The conditions of a wait of the pass: a delay of `delay_secs` seconds and
/// an idle network within 8 seconds.
pub open spec fn ladder_wait(delay_secs: u64, page_navigations: bool) -> WaitFor {
    WaitFor {
        selector: None,
        idle_network: Some(WaitForIdleNetwork { timeout: Some(duration_from_secs(8)) }),
        delay: Some(WaitForDelay { timeout: Some(duration_from_secs(delay_secs)) }),
        page_navigations,
    }
}

fn make_wait(delay_secs: u64, page_navigations: bool) -> (w: WaitFor)
    ensures
        w == ladder_wait(delay_secs, page_navigations),
{
    WaitFor {
        selector: None,
        idle_network: Some(WaitForIdleNetwork::new(Some(Duration::from_secs(8)))),
        delay: Some(WaitForDelay::new(Some(Duration::from_secs(delay_secs)))),
        page_navigations,
    }
}

/// The first part of the pass: wait a second for the network, activate the
/// frames, wait again with navigations, and capture the content anew. Nothing
/// at all is done to a page that is no challenge.
pub open spec fn first_steps(body: Seq<u8>) -> Seq<LadderAction> {
    if is_challenge(body) {
        seq![
            LadderAction::Wait(ladder_wait(1, false)),
            LadderAction::ClickFrames,
            LadderAction::Wait(ladder_wait(1, true)),
            LadderAction::Recapture,
        ]
    } else {
        Seq::empty()
    }
}

/// The second part of the pass, for the content that was captured anew: where
/// it still is a challenge, wait four seconds more and capture once more.
pub open spec fn second_steps(recaptured: Seq<u8>) -> Seq<LadderAction> {
    if is_challenge(recaptured) {
        seq![LadderAction::Wait(ladder_wait(4, true)), LadderAction::Recapture]
    } else {
        Seq::empty()
    }
}

/// The steps to take on a page whose content is `body`.
pub fn cf_handle(body: &[u8]) -> (steps: Vec<LadderAction>)
    ensures
        steps@ == first_steps(body@),
{
    let mut steps: Vec<LadderAction> = Vec::new();
    if detect(body) {
        steps.push(LadderAction::Wait(make_wait(1, false)));
        steps.push(LadderAction::ClickFrames);
        steps.push(LadderAction::Wait(make_wait(1, true)));
        steps.push(LadderAction::Recapture);
    }
    assert(steps@ =~= first_steps(body@));
    steps
}

/// The steps to take after the content was captured anew.
pub fn cf_retry(recaptured: &[u8]) -> (steps: Vec<LadderAction>)
    ensures
        steps@ == second_steps(recaptured@),
{
    let mut steps: Vec<LadderAction> = Vec::new();
    if detect(recaptured) {
        steps.push(LadderAction::Wait(make_wait(4, true)));
        steps.push(LadderAction::Recapture);
    }
    assert(steps@ =~= second_steps(recaptured@));
    steps
}

/// The bytes of an optional capture.
pub open spec fn capture_bytes(c: Option<Vec<u8>>) -> Option<Seq<u8>> {
    match c {
        Some(b) => Some(b@),
        None => None,
    }
}

/// The content that the pass leaves: the input where it is no challenge or a
/// capture failed, else whichever content was captured last.
pub open spec fn resolved(body: Seq<u8>, first: Option<Seq<u8>>, second: Option<Seq<u8>>) -> Seq<
    u8,
> {
    if !is_challenge(body) {
        body
    } else {
        match first {
            None => body,
            Some(one) => if !is_challenge(one) {
                one
            } else {
                match second {
                    None => body,
                    Some(two) => two,
                }
            },
        }
    }
}

/// The content of the page after the pass. `first` is what the first capture
/// gave and `second` what the second gave, each `None` where the capture
/// failed or was not made.
pub fn detect_and_resolve(body: Vec<u8>, first: Option<Vec<u8>>, second: Option<Vec<u8>>) -> (r:
    Vec<u8>)
    ensures
        r@ == resolved(body@, capture_bytes(first), capture_bytes(second)),
{
    if !detect(body.as_slice()) {
        return body;
    }
    match first {
        None => body,
        Some(one) => {
            if !detect(one.as_slice()) {
                one
            } else {
                match second {
                    None => body,
                    Some(two) => two,
                }
            }
        },
    }
}

/// Detection does nothing to a page that is no challenge: no step is taken,
/// and the content comes back as it was, whatever the captures hold.
pub proof fn lemma_idempotent_without_challenge(
    body: Seq<u8>,
    first: Option<Seq<u8>>,
    second: Option<Seq<u8>>,
)
    requires
        !is_challenge(body),
    ensures
        first_steps(body).len() == 0,
        resolved(body, first, second) == body,
        resolved(resolved(body, first, second), first, second) == body,
{
}

/// A body that ends with the vendor's link marker is a challenge, and the
/// pass waits and captures the content anew at least once.
pub proof fn lemma_link_marker_fires(body: Seq<u8>)
    requires
        is_suffix(link_marker(), body),
    ensures
        is_challenge(body),
        first_steps(body).len() == 4,
        first_steps(body)[0] is Wait,
        first_steps(body)[3] is Recapture,
{
}

/// The pass is made once: after it at most six steps were taken, two of them
/// captures.
pub proof fn lemma_pass_is_bounded(body: Seq<u8>, recaptured: Seq<u8>)
    ensures
        first_steps(body).len() + second_steps(recaptured).len() <= 6,
{
}

} // verus!
