//! The crawl control bus: a single slot that holds the latest signal.

use vstd::prelude::*;

verus! {

/// The signal that a crawl loop reacts to.
#[derive(Debug, Clone, Copy, PartialEq, Eq, Structural)]
pub enum Handler {
    /// Crawl start state
    Start,
    /// Crawl pause state
    Pause,
    /// Crawl resume
    Resume,
    /// Crawl shutdown
    Shutdown,
}

/// What a subscriber of the bus observes: the latest target and signal.
pub struct BusView {
    pub target: Seq<char>,
    pub signal: Handler,
}

impl BusView {
    /// The slot after `(target, signal)` was sent: nothing of `self` is left.
    pub open spec fn after_send(self, target: Seq<char>, signal: Handler) -> BusView {
        BusView { target, signal }
    }
}

/// A single-slot broadcast channel of `(target, signal)` pairs.
///
/// A send overwrites the slot; nothing of the earlier value remains.
pub struct ControlBus {
    target: String,
    signal: Handler,
}

impl View for ControlBus {
    type V = BusView;

    closed spec fn view(&self) -> BusView {
        BusView { target: self.target@, signal: self.signal }
    }
}

/// The name that the slot holds before anything was sent.
pub open spec fn initial_target() -> Seq<char> {
    "handles"@
}

impl ControlBus {
    /// A bus whose slot holds the start signal for the target `handles`.
    pub fn new() -> (bus: ControlBus)
        ensures
            bus@.target == initial_target(),
            bus@.signal == Handler::Start,
    {
        ControlBus { target: "handles".to_owned(), signal: Handler::Start }
    }

    /// Put `(target, signal)` into the slot.
    pub fn send(&mut self, target: &str, signal: Handler)
        ensures
            final(self)@ == old(self)@.after_send(target@, signal),
    {
        self.target = target.to_owned();
        self.signal = signal;
    }

    /// The target of the latest signal.
    pub fn target(&self) -> (t: &str)
        ensures
            t@ == self@.target,
    {
        self.target.as_str()
    }

    /// The latest signal.
    pub fn signal(&self) -> (s: Handler)
        ensures
            s == self@.signal,
    {
        self.signal
    }

    /// The latest `(target, signal)` pair, as a subscriber reads it.
    pub fn latest(&self) -> (r: (String, Handler))
        ensures
            r.0@ == self@.target,
            r.1 == self@.signal,
    {
        (self.target.clone(), self.signal)
    }
}

/// Pause a target website running crawl.
pub fn pause(bus: &mut ControlBus, target: &str)
    ensures
        final(bus)@ == old(bus)@.after_send(target@, Handler::Pause),
{
    bus.send(target, Handler::Pause);
}

/// Resume a target website crawl.
pub fn resume(bus: &mut ControlBus, target: &str)
    ensures
        final(bus)@ == old(bus)@.after_send(target@, Handler::Resume),
{
    bus.send(target, Handler::Resume);
}

/// Shutdown a target website crawl.
pub fn shutdown(bus: &mut ControlBus, target: &str)
    ensures
        final(bus)@ == old(bus)@.after_send(target@, Handler::Shutdown),
{
    bus.send(target, Handler::Shutdown);
}

/// Reset a target website crawl: the slot holds the start signal again.
pub fn reset(bus: &mut ControlBus, target: &str)
    ensures
        final(bus)@ == old(bus)@.after_send(target@, Handler::Start),
{
    bus.send(target, Handler::Start);
}

/// The last signal wins: what a subscriber sees after two sends is the second
/// pair alone, whatever the slot held and whatever was sent first.
pub proof fn lemma_last_signal_wins(
    before: BusView,
    other: BusView,
    first: (Seq<char>, Handler),
    second: (Seq<char>, Handler),
)
    ensures
        before.after_send(first.0, first.1).after_send(second.0, second.1) == (BusView {
            target: second.0,
            signal: second.1,
        }),
        before.after_send(second.0, second.1) == other.after_send(second.0, second.1),
{
}

} // verus!
