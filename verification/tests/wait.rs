use spider::configuration::{WaitFor, WaitForDelay};
use spider::wait::{
    network_quiet_period, page_wait, selector_poll_period, wait_for_event, wait_for_selector,
    NetworkEvent, Poll, SelectorEvent, WaitStep,
};
use std::time::Duration;

#[test]
fn nothing_to_wait_for() {
    assert!(page_wait(&None).is_empty());
    assert!(page_wait(&Some(WaitFor::default())).is_empty());
    let no_duration = WaitFor::new(None, Some(WaitForDelay::new(None)), true, false, None);
    assert!(page_wait(&Some(no_duration)).is_empty());
}

#[test]
fn waits_come_in_the_fixed_order() {
    let spec = WaitFor::new(
        Some(Duration::from_secs(30)),
        Some(WaitForDelay::new(Some(Duration::from_millis(250)))),
        false,
        true,
        Some("#app".to_string()),
    );
    let plan = page_wait(&Some(spec));
    assert_eq!(plan.len(), 3);
    match &plan[0] {
        WaitStep::IdleNetwork { timeout } => assert_eq!(*timeout, Some(Duration::from_secs(30))),
        _ => panic!("idle network comes first"),
    }
    match &plan[1] {
        WaitStep::Selector { timeout, selector } => {
            assert_eq!(*timeout, Some(Duration::from_secs(30)));
            assert_eq!(selector, "#app");
        }
        _ => panic!("selector comes second"),
    }
    match &plan[2] {
        WaitStep::Delay { duration } => assert_eq!(*duration, Duration::from_millis(250)),
        _ => panic!("delay comes last"),
    }
}

#[test]
fn unset_conditions_are_skipped() {
    let spec = WaitFor::new(None, None, false, false, Some("a.next".to_string()));
    let plan = page_wait(&Some(spec));
    assert_eq!(plan.len(), 1);
    match &plan[0] {
        WaitStep::Selector { timeout, selector } => {
            assert!(timeout.is_none());
            assert_eq!(selector, "a.next");
        }
        _ => panic!("selector only"),
    }
}

#[test]
fn poll_periods() {
    assert_eq!(network_quiet_period(), Duration::from_millis(500));
    assert_eq!(selector_poll_period(), Duration::from_millis(50));
}

#[test]
fn idle_network_ends_on_first_event_or_quiet() {
    assert_eq!(wait_for_event(NetworkEvent::RequestFinished), Poll::Done);
    assert_eq!(wait_for_event(NetworkEvent::Quiet), Poll::Done);
    assert_eq!(wait_for_event(NetworkEvent::TimedOut), Poll::Done);
    assert_eq!(wait_for_event(NetworkEvent::NoListener), Poll::Done);
    assert_eq!(wait_for_event(NetworkEvent::StreamEnded), Poll::Again);
}

#[test]
fn selector_wait_ends_when_found_or_timed_out() {
    assert_eq!(wait_for_selector(SelectorEvent::Found), Poll::Done);
    assert_eq!(wait_for_selector(SelectorEvent::TimedOut), Poll::Done);
    assert_eq!(wait_for_selector(SelectorEvent::Missing), Poll::Again);
    assert_eq!(wait_for_selector(SelectorEvent::Tick), Poll::Again);
}
