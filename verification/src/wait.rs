//! The wait-for engine: which readiness conditions a page is held to, in
//! which order, and when each wait is over.
//!
//! Every wait is best effort: it ends at its condition or at its timeout, and
//! never with an error.

use vstd::prelude::*;
use core::time::Duration;
use crate::configuration::WaitFor;

verus! {

/// The duration that `Duration::from_secs` makes of a number of seconds.
pub uninterp spec fn duration_from_secs(secs: u64) -> Duration;

/// The duration that `Duration::from_millis` makes of a number of milliseconds.
pub uninterp spec fn duration_from_millis(millis: u64) -> Duration;

/// `Duration::from_secs`: the duration of that many whole seconds.
pub assume_specification[ Duration::from_secs ](secs: u64) -> (d: Duration)
    ensures
        d == duration_from_secs(secs),
;

/// `Duration::from_millis`: the duration of that many milliseconds.
pub assume_specification[ Duration::from_millis ](millis: u64) -> (d: Duration)
    ensures
        d == duration_from_millis(millis),
;

/// The time without a finished request after which the network counts as idle,
/// in milliseconds.
pub const NETWORK_QUIET_MILLIS: u64 = 500;

/// The time between two looks for a selector, in milliseconds.
pub const SELECTOR_POLL_MILLIS: u64 = 50;

/// One wait of a page.
pub enum WaitStep {
    /// Listen for finished requests until one comes or the network stays
    /// quiet, for `timeout` at most; without a timeout, for as long as it takes.
    IdleNetwork { timeout: Option<Duration> },
    /// Look for an element that `selector` matches until it is there, for
    /// `timeout` at most.
    Selector { timeout: Option<Duration>, selector: String },
    /// Sleep once for `duration`.
    Delay { duration: Duration },
}

/// The waits that a set of conditions asks for, in the order in which they are
/// made: idle network, then selector, then delay.
pub open spec fn plan_of(wait_for: Option<WaitFor>) -> Seq<WaitStep> {
    match wait_for {
        None => Seq::empty(),
        Some(w) => idle_steps(w) + selector_steps(w) + delay_steps(w),
    }
}

/// The wait for the idle network, if it is asked for.
pub open spec fn idle_steps(w: WaitFor) -> Seq<WaitStep> {
    match w.idle_network {
        Some(n) => seq![WaitStep::IdleNetwork { timeout: n.timeout }],
        None => Seq::empty(),
    }
}

/// The wait for the selector, if it is asked for.
pub open spec fn selector_steps(w: WaitFor) -> Seq<WaitStep> {
    match w.selector {
        Some(s) => seq![WaitStep::Selector { timeout: s.timeout, selector: s.selector }],
        None => Seq::empty(),
    }
}

/// The delay, if one with a duration is asked for.
pub open spec fn delay_steps(w: WaitFor) -> Seq<WaitStep> {
    match w.delay {
        Some(d) => match d.timeout {
            Some(t) => seq![WaitStep::Delay { duration: t }],
            None => Seq::empty(),
        },
        None => Seq::empty(),
    }
}

/// The waits to make for a page, in order. A condition that is not set is
/// skipped; no wait at all is made where no conditions are given.
pub fn page_wait(wait_for: &Option<WaitFor>) -> (plan: Vec<WaitStep>)
    ensures
        plan@ == plan_of(*wait_for),
{
    let mut plan: Vec<WaitStep> = Vec::new();
    match wait_for {
        None => {},
        Some(w) => {
            match &w.idle_network {
                Some(n) => {
                    plan.push(WaitStep::IdleNetwork { timeout: n.timeout });
                },
                None => {},
            }
            assert(plan@ =~= idle_steps(*w));
            match &w.selector {
                Some(s) => {
                    plan.push(WaitStep::Selector { timeout: s.timeout, selector: s.selector.clone() });
                },
                None => {},
            }
            assert(plan@ =~= idle_steps(*w) + selector_steps(*w));
            match &w.delay {
                Some(d) => match d.timeout {
                    Some(t) => {
                        plan.push(WaitStep::Delay { duration: t });
                    },
                    None => {},
                },
                None => {},
            }
            assert(plan@ =~= idle_steps(*w) + selector_steps(*w) + delay_steps(*w));
        },
    }
    plan
}

/// The time without a finished request after which the network counts as idle.
pub fn network_quiet_period() -> (d: Duration)
    ensures
        d == duration_from_millis(NETWORK_QUIET_MILLIS),
{
    Duration::from_millis(NETWORK_QUIET_MILLIS)
}

/// The time between two looks for a selector.
pub fn selector_poll_period() -> (d: Duration)
    ensures
        d == duration_from_millis(SELECTOR_POLL_MILLIS),
{
    Duration::from_millis(SELECTOR_POLL_MILLIS)
}

/// What a wait does next.
#[derive(Debug, Clone, Copy, PartialEq, Eq, Structural)]
pub enum Poll {
    /// The wait is over.
    Done,
    /// Wait on.
    Again,
}

/// What happened while the page was listened to for finished requests.
#[derive(Debug, Clone, Copy, PartialEq, Eq, Structural)]
pub enum NetworkEvent {
    /// The listener could not be set up.
    NoListener,
    /// A request finished.
    RequestFinished,
    /// The quiet period passed without a finished request.
    Quiet,
    /// The stream of events ended.
    StreamEnded,
    /// The wait's timeout passed.
    TimedOut,
}

/// What the wait for the idle network does on an event.
pub open spec fn network_poll(event: NetworkEvent) -> Poll {
    match event {
        NetworkEvent::StreamEnded => Poll::Again,
        _ => Poll::Done,
    }
}

/// Decide whether the wait for the idle network goes on: it ends on the first
/// finished request, after a quiet period, at its timeout, and where the page
/// cannot be listened to.
pub fn wait_for_event(event: NetworkEvent) -> (p: Poll)
    ensures
        p == network_poll(event),
{
    match event {
        NetworkEvent::StreamEnded => Poll::Again,
        _ => Poll::Done,
    }
}

/// What happened while the page was searched for a selector.
#[derive(Debug, Clone, Copy, PartialEq, Eq, Structural)]
pub enum SelectorEvent {
    /// The element is there.
    Found,
    /// The element is not there.
    Missing,
    /// The time between two looks passed.
    Tick,
    /// The wait's timeout passed.
    TimedOut,
}

/// What the wait for a selector does on an event.
pub open spec fn selector_poll(event: SelectorEvent) -> Poll {
    match event {
        SelectorEvent::Found => Poll::Done,
        SelectorEvent::TimedOut => Poll::Done,
        _ => Poll::Again,
    }
}

/// Decide whether the wait for a selector goes on: it ends when the element is
/// found and at its timeout.
pub fn wait_for_selector(event: SelectorEvent) -> (p: Poll)
    ensures
        p == selector_poll(event),
{
    match event {
        SelectorEvent::Found => Poll::Done,
        SelectorEvent::TimedOut => Poll::Done,
        _ => Poll::Again,
    }
}

/// The waits are made in the fixed order idle network, selector, delay: the
/// plan is a subsequence of that order, with each kind at most once.
pub proof fn lemma_plan_order(w: WaitFor)
    ensures
        plan_of(Some(w)).len() <= 3,
        forall|i: int, j: int|
            0 <= i < j < plan_of(Some(w)).len() ==> rank(#[trigger] plan_of(Some(w))[i]) < rank(
                #[trigger] plan_of(Some(w))[j],
            ),
{
}

/// The place of a kind of wait in the fixed order.
pub open spec fn rank(step: WaitStep) -> int {
    match step {
        WaitStep::IdleNetwork { .. } => 0,
        WaitStep::Selector { .. } => 1,
        WaitStep::Delay { .. } => 2,
    }
}

} // verus!
