use spider::challenge::{
    cf_handle, cf_retry, click_frames_script, detect, detect_and_resolve, detect_raw_template,
    force_status, LadderAction,
};
use std::time::Duration;

const LINK_END: &[u8] = b"target=\"_blank\">Cloudflare</a></div></div></div></body></html>";
const BANNER_END: &[u8] =
    b"Performance &amp; security by Cloudflare</div></div></div></body></html>";
const HEAD: &[u8] = b"<html><head>\n    <style global=\"\">";
const FRAME: &[u8] = b"<iframe height=\"1\" width=\"1\" style=\"position: absolute; top: 0px; left: 0px; border: none; visibility: hidden;\"></iframe>\n\n</body></html>";

fn page(start: &[u8], end: &[u8]) -> Vec<u8> {
    [start, b"...", end].concat()
}

fn delay_and_idle(action: &LadderAction) -> (Duration, Duration, bool) {
    match action {
        LadderAction::Wait(w) => {
            assert!(w.selector.is_none());
            (
                w.delay.as_ref().unwrap().timeout.unwrap(),
                w.idle_network.as_ref().unwrap().timeout.unwrap(),
                w.page_navigations,
            )
        }
        _ => panic!("no wait"),
    }
}

#[test]
fn ordinary_page_is_no_challenge() {
    assert!(!detect(b"<html>ok</html>"));
    assert!(!detect(b""));
    assert!(!detect(HEAD));
    assert!(!detect(&page(b"<html>", b"Cloudflare</a></div></div></div></body></html> ")));
}

#[test]
fn markers_are_detected() {
    assert!(detect(LINK_END));
    assert!(detect(&page(b"<html>", LINK_END)));
    assert!(detect(&page(b"", BANNER_END)));
    assert!(detect(&page(HEAD, FRAME)));
    assert!(!detect(&page(b"<html>", FRAME)));
}

#[test]
fn no_challenge_no_interaction() {
    let body = b"<html>ok</html>".to_vec();
    assert!(cf_handle(&body).is_empty());
    let same = detect_and_resolve(body.clone(), Some(b"other".to_vec()), Some(b"more".to_vec()));
    assert_eq!(same, body);
    assert_eq!(detect_and_resolve(same.clone(), None, None), body);
}

#[test]
fn link_marker_starts_the_ladder() {
    let body = page(b"<html>", LINK_END);
    let steps = cf_handle(&body);
    assert_eq!(steps.len(), 4);
    assert_eq!(
        delay_and_idle(&steps[0]),
        (Duration::from_secs(1), Duration::from_secs(8), false)
    );
    assert!(matches!(steps[1], LadderAction::ClickFrames));
    assert_eq!(
        delay_and_idle(&steps[2]),
        (Duration::from_secs(1), Duration::from_secs(8), true)
    );
    assert!(matches!(steps[3], LadderAction::Recapture));
}

#[test]
fn second_pass_only_for_a_standing_challenge() {
    assert!(cf_retry(b"<html>real</html>").is_empty());
    let steps = cf_retry(&page(b"", BANNER_END));
    assert_eq!(steps.len(), 2);
    assert_eq!(
        delay_and_idle(&steps[0]),
        (Duration::from_secs(4), Duration::from_secs(8), true)
    );
    assert!(matches!(steps[1], LadderAction::Recapture));
}

#[test]
fn last_capture_wins() {
    let challenge = page(b"<html>", LINK_END);
    let real = b"<html>real</html>".to_vec();
    assert_eq!(detect_and_resolve(challenge.clone(), Some(real.clone()), None), real);
    assert_eq!(
        detect_and_resolve(challenge.clone(), Some(challenge.clone()), Some(real.clone())),
        real
    );
    let still = page(b"", BANNER_END);
    assert_eq!(
        detect_and_resolve(challenge.clone(), Some(challenge.clone()), Some(still.clone())),
        still
    );
}

#[test]
fn failed_capture_leaves_the_body() {
    let challenge = page(b"<html>", LINK_END);
    assert_eq!(detect_and_resolve(challenge.clone(), None, None), challenge);
    assert_eq!(
        detect_and_resolve(challenge.clone(), Some(page(b"x", LINK_END)), None),
        challenge
    );
}

#[test]
fn flagged_template_is_forbidden() {
    let template = page(
        b"<html><head>\n    <style global=",
        &[b";</script>".as_slice(), FRAME].concat(),
    );
    assert!(detect_raw_template(&template));
    assert_eq!(force_status(true, &template, 200), 403);
    assert_eq!(force_status(false, &template, 200), 200);
    assert_eq!(force_status(true, b"<html>ok</html>", 200), 200);
    assert_eq!(force_status(true, &page(HEAD, FRAME), 503), 503);
}

#[test]
fn script_clicks_every_frame() {
    assert_eq!(
        click_frames_script(),
        "document.querySelectorAll(\"iframe\").forEach(el=>el.click());"
    );
}
