//! The readiness multiplexer: a wait on several subscriptions at once.

use vstd::prelude::*;
use crate::bridge::HostCall;
use crate::op::{Pending, Step, StepView};

verus! {

/// The event-type tag of a timer.
pub const EVENTTYPE_CLOCK: u8 = 0;

/// The event-type tag of a descriptor that can be read.
pub const EVENTTYPE_FD_READ: u8 = 1;

/// What a subscription waits for.
#[derive(Copy, Clone, Debug, PartialEq, Eq, Structural)]
pub enum Interest {
    /// The clock `id` reaches `timeout`, to within `precision`. `flags`
    /// says whether `timeout` is a point in time or a span from now.
    Clock { id: u32, timeout: u64, precision: u64, flags: u16 },
    /// The descriptor has bytes to read, or its stream has ended.
    FdRead { file_descriptor: u32 },
}

impl Interest {
    /// The event-type tag of this interest, which the matching event
    /// carries too.
    pub open spec fn spec_tag(&self) -> u8 {
        match *self {
            Interest::Clock { .. } => EVENTTYPE_CLOCK,
            Interest::FdRead { .. } => EVENTTYPE_FD_READ,
        }
    }

    #[verifier::when_used_as_spec(spec_tag)]
    pub fn tag(&self) -> (t: u8)
        ensures
            t == self.spec_tag(),
    {
        match *self {
            Interest::Clock { .. } => EVENTTYPE_CLOCK,
            Interest::FdRead { .. } => EVENTTYPE_FD_READ,
        }
    }
}

/// One interest, with the value by which the caller finds it again.
#[derive(Copy, Clone, Debug, PartialEq, Eq, Structural)]
pub struct Subscription {
    pub userdata: u64,
    pub interest: Interest,
}

/// The host's report that a subscription fired.
#[derive(Copy, Clone, Debug, PartialEq, Eq, Structural)]
pub struct Event {
    /// The `userdata` of the subscription.
    pub userdata: u64,
    /// The host's error code for this subscription; zero if there is none.
    pub error: u16,
    /// The event-type tag of the subscription.
    pub type_: u8,
}

impl Subscription {
    /// Whether `event` reports this subscription: it carries the same
    /// correlation value and the tag of the same interest.
    pub open spec fn spec_matches(&self, event: &Event) -> bool {
        self.userdata == event.userdata && self.interest.tag() == event.type_
    }

    #[verifier::when_used_as_spec(spec_matches)]
    pub fn matches(&self, event: &Event) -> (m: bool)
        ensures
            m == self.spec_matches(event),
    {
        self.userdata == event.userdata && self.interest.tag() == event.type_
    }
}

/// The events that a wait yields: those that the host reported, in the
/// host's order and as the host wrote them. The host says how many of the
/// records it filled in; the wait yields no more than that, no more than
/// there are records, and never more than there were subscriptions.
pub open spec fn fired(events: Seq<Event>, nevents: usize, nsubscriptions: usize) -> Seq<Event> {
    let n = if nevents <= nsubscriptions {
        nevents as int
    } else {
        nsubscriptions as int
    };
    if n <= events.len() {
        events.subrange(0, n)
    } else {
        events
    }
}

/// Waits until at least one of the subscriptions fires. The operation
/// yields the events of those that did. An empty set of subscriptions is
/// never waited on.
pub fn wait(subscriptions: &[Subscription]) -> (step: Step)
    requires
        subscriptions.len() > 0,
    ensures
        step@.well_formed(),
        step@ == StepView::Call(
            HostCall::Poll { nsubscriptions: subscriptions.len() },
            Pending::Poll { nsubscriptions: subscriptions.len() },
        ),
{
    Step::Call(
        HostCall::Poll { nsubscriptions: subscriptions.len() },
        Pending::Poll { nsubscriptions: subscriptions.len() },
    )
}

/// A wait yields at most as many events as there were subscriptions, and
/// each is the host's record in that place, unchanged.
pub proof fn lemma_fired_is_bounded(events: Seq<Event>, nevents: usize, nsubscriptions: usize)
    ensures
        fired(events, nevents, nsubscriptions).len() <= nsubscriptions,
        fired(events, nevents, nsubscriptions).len() <= nevents,
        fired(events, nevents, nsubscriptions).len() <= events.len(),
        fired(events, nevents, nsubscriptions).len() == nevents || nevents > nsubscriptions
            || nevents > events.len(),
        forall|i: int|
            0 <= i < fired(events, nevents, nsubscriptions).len() ==> fired(
                events,
                nevents,
                nsubscriptions,
            )[i] == events[i],
{
}

} // verus!
