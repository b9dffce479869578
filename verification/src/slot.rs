//! The three-state slot that holds a session's event sink, as producers drive
//! it and as readers see it.

use vstd::prelude::*;

verus! {

/// The one failure a reader can meet: the session behind the slot is gone and
/// no sink will ever be published again.
#[derive(Clone, Copy, Debug, PartialEq, Eq)]
pub struct SessionClosed;

impl SessionClosed {
    /// The text that describes the failure.
    pub fn message(&self) -> (text: String)
        ensures
            text@ == "Session closed"@,
    {
        "Session closed".to_owned()
    }
}

/// What a slot holds at one instant.
#[derive(Debug, PartialEq, Eq)]
pub enum SlotState<S> {
    /// No sink yet; one is still expected.
    Unset,
    /// A sink is available now.
    Ready(S),
    /// The producer is gone; no sink will ever be published.
    Closed,
}

/// A change that the producer makes to a slot.
#[derive(Debug, PartialEq, Eq)]
pub enum SlotEvent<S> {
    /// Publish a sink, replacing the one that may be there.
    Publish(S),
    /// Take the sink back while the session stays open.
    Retract,
    /// End the session.
    Close,
}

/// What a waiting reader does after one look at the slot.
#[derive(Debug, PartialEq, Eq)]
pub enum WaitStep<S> {
    /// The wait is over: hand this sink to the caller.
    Deliver(S),
    /// Nothing yet: sleep until the slot changes, then look again.
    KeepWaiting,
    /// The wait is over: the session is closed.
    Fail(SessionClosed),
}

impl<S> SlotState<S> {
    /// The state that a reader derives from what the cell reports: the latest
    /// published value, and whether the producer is gone. A closed slot is
    /// closed whatever value was left in it.
    pub open spec fn read_as(latest: Option<S>, producer_gone: bool) -> SlotState<S> {
        if producer_gone {
            SlotState::Closed
        } else {
            match latest {
                Some(sink) => SlotState::Ready(sink),
                None => SlotState::Unset,
            }
        }
    }

    /// The state after the producer's change `event`. Nothing leaves `Closed`.
    pub open spec fn after(self, event: SlotEvent<S>) -> SlotState<S> {
        match self {
            SlotState::Closed => SlotState::Closed,
            _ => match event {
                SlotEvent::Publish(sink) => SlotState::Ready(sink),
                SlotEvent::Retract => SlotState::Unset,
                SlotEvent::Close => SlotState::Closed,
            },
        }
    }

    /// The state after the producer's changes `events`, first to last.
    pub open spec fn after_all(self, events: Seq<SlotEvent<S>>) -> SlotState<S>
        decreases events.len(),
    {
        if events.len() == 0 {
            self
        } else {
            self.after_all(events.drop_last()).after(events.last())
        }
    }

    /// The sink that is there right now, if any.
    pub open spec fn sink(self) -> Option<S> {
        match self {
            SlotState::Ready(sink) => Some(sink),
            _ => None,
        }
    }

    /// What a waiting reader does on seeing this state.
    pub open spec fn wait(self) -> WaitStep<S> {
        match self {
            SlotState::Ready(sink) => WaitStep::Deliver(sink),
            SlotState::Unset => WaitStep::KeepWaiting,
            SlotState::Closed => WaitStep::Fail(SessionClosed),
        }
    }

    /// Builds the state from one reading of the cell.
    pub fn from_reading(latest: Option<S>, producer_gone: bool) -> (state: SlotState<S>)
        ensures
            state == Self::read_as(latest, producer_gone),
    {
        if producer_gone {
            SlotState::Closed
        } else {
            match latest {
                Some(sink) => SlotState::Ready(sink),
                None => SlotState::Unset,
            }
        }
    }

    /// Applies one change of the producer.
    pub fn apply(self, event: SlotEvent<S>) -> (next: SlotState<S>)
        ensures
            next == self.after(event),
    {
        match self {
            SlotState::Closed => SlotState::Closed,
            _ => match event {
                SlotEvent::Publish(sink) => SlotState::Ready(sink),
                SlotEvent::Retract => SlotState::Unset,
                SlotEvent::Close => SlotState::Closed,
            },
        }
    }

    /// The point-in-time read: the sink if one is set, nothing otherwise.
    pub fn try_get(self) -> (found: Option<S>)
        ensures
            found == self.sink(),
    {
        match self {
            SlotState::Ready(sink) => Some(sink),
            _ => None,
        }
    }

    /// One step of a blocking read.
    pub fn wait_step(self) -> (step: WaitStep<S>)
        ensures
            step == self.wait(),
    {
        match self {
            SlotState::Ready(sink) => WaitStep::Deliver(sink),
            SlotState::Unset => WaitStep::KeepWaiting,
            SlotState::Closed => WaitStep::Fail(SessionClosed),
        }
    }
}

/// Closure is terminal: whatever the producer does to a closed slot, it
/// stays closed.
pub proof fn law_closed_is_terminal<S>(events: Seq<SlotEvent<S>>)
    ensures
        SlotState::<S>::Closed.after_all(events) == SlotState::<S>::Closed,
    decreases events.len(),
{
    if events.len() > 0 {
        law_closed_is_terminal(events.drop_last());
    }
}

/// A reader of a fresh slot keeps waiting, and once the producer has
/// published a sink the reader is handed that sink.
pub proof fn law_wait_then_deliver<S>(sink: S)
    ensures
        SlotState::<S>::Unset.wait() == WaitStep::<S>::KeepWaiting,
        SlotState::<S>::Unset.after(SlotEvent::Publish(sink)).wait() == WaitStep::Deliver(sink),
{
}

/// A close ends every wait with the error, also the wait of a reader that
/// never saw a sink, and nothing that follows the close takes the error back.
pub proof fn law_close_fails_wait<S>(state: SlotState<S>, later: Seq<SlotEvent<S>>)
    ensures
        SlotState::<S>::Unset.after(SlotEvent::Close).wait() == WaitStep::<S>::Fail(SessionClosed),
        state.after(SlotEvent::Close).after_all(later).wait() == WaitStep::<S>::Fail(
            SessionClosed,
        ),
{
    law_closed_is_terminal(later);
}

/// A reader that arrives late sees only the latest sink: after publish,
/// retract and publish again it is handed the second sink, never the first
/// and never the error.
pub proof fn law_retract_then_reset<S>(first: S, second: S)
    ensures
        SlotState::<S>::Unset.after(SlotEvent::Publish(first)).after(SlotEvent::Retract).after(
            SlotEvent::Publish(second),
        ).wait() == WaitStep::Deliver(second),
{
}

/// While a slot is open the latest publish wins, whatever was published or
/// retracted before it.
pub proof fn law_latest_publish_wins<S>(state: SlotState<S>, earlier: Seq<SlotEvent<S>>, sink: S)
    requires
        !(state.after_all(earlier) is Closed),
    ensures
        state.after_all(earlier.push(SlotEvent::Publish(sink))).wait() == WaitStep::Deliver(sink),
{
    let events = earlier.push(SlotEvent::Publish(sink));
    assert(events.drop_last() == earlier);
}

} // verus!
