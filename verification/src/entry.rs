//! A reader's handle to one slot. The slot lives in a watch channel: the
//! channel's value is the sink that is set, if any, and the slot is closed
//! once every sender of the channel is gone.

use crate::slot::SlotState;
use tokio::sync::watch::Receiver;
use vstd::prelude::*;

verus! {

/// `tokio::sync::watch::Receiver`, carried around as an opaque value.
#[verifier::external_type_specification]
#[verifier::external_body]
#[verifier::reject_recursive_types(T)]
pub struct ExReceiver<T>(tokio::sync::watch::Receiver<T>);

/// Calls `Receiver::borrow` and clones the value it guards: the value most
/// recently sent on the channel at the instant of the call. Nothing is
/// claimed of it, since the producer may send at any time.
#[verifier::external_body]
fn latest<S: Clone>(rx: &Receiver<Option<S>>) -> Option<S> {
    rx.borrow().clone()
}

/// Calls `Receiver::is_closed`: whether every sender of the channel had been
/// dropped at the instant of the call. Nothing is claimed of it.
#[verifier::external_body]
fn producer_gone<S>(rx: &Receiver<Option<S>>) -> bool {
    rx.is_closed()
}

/// Calls `Receiver::clone`. Claimed: the clone equals the receiver it was
/// made from, as it is built from the same channel and the same last-seen
/// version.
#[verifier::external_body]
fn another<S>(rx: &Receiver<Option<S>>) -> (copy: Receiver<Option<S>>)
    ensures
        copy == *rx,
{
    rx.clone()
}

/// Calls `Receiver::same_channel`, which compares the channels that the two
/// receivers point to. Claimed: equal receivers belong to one channel.
#[verifier::external_body]
fn same_channel<S>(a: &Receiver<Option<S>>, b: &Receiver<Option<S>>) -> (same: bool)
    ensures
        *a == *b ==> same,
{
    a.same_channel(b)
}

/// A read-only handle to the slot of one session key. Any number of readers
/// may hold clones of it.
#[verifier::reject_recursive_types(S)]
pub struct EventSinkEntry<S> {
    rx: Receiver<Option<S>>,
}

impl<S> Clone for EventSinkEntry<S> {
    /// Another handle to the same slot.
    fn clone(&self) -> (copy: Self)
        ensures
            copy == *self,
    {
        EventSinkEntry { rx: another(&self.rx) }
    }
}

impl<S> EventSinkEntry<S> {
    /// The receiver that the handle reads the slot through.
    pub closed spec fn receiver(&self) -> Receiver<Option<S>> {
        self.rx
    }

    /// Wraps the receiving half of the slot's channel.
    pub fn new(rx: Receiver<Option<S>>) -> (entry: Self)
        ensures
            entry.receiver() == rx,
    {
        EventSinkEntry { rx }
    }

    /// A receiver of the slot's channel, for a reader to sleep on until the
    /// slot changes.
    pub fn subscribe(&self) -> (rx: Receiver<Option<S>>)
        ensures
            rx == self.receiver(),
    {
        another(&self.rx)
    }

    /// Whether `other` is a handle to the same slot. A handle and its clones
    /// are.
    pub fn same_slot(&self, other: &Self) -> (same: bool)
        ensures
            *self == *other ==> same,
    {
        same_channel(&self.rx, &other.rx)
    }
}

impl<S: Clone> EventSinkEntry<S> {
    /// Reads the slot once. The result is a state that the slot was in at
    /// some instant of the call; the producer may have changed it since.
    pub fn observe(&self) -> SlotState<S> {
        let gone = producer_gone(&self.rx);
        let value = latest(&self.rx);
        SlotState::from_reading(value, gone)
    }

    /// The sink if one is set right now, nothing otherwise: nothing for an
    /// unset slot and nothing for a closed one. Never waits.
    pub fn try_get(&self) -> Option<S> {
        self.observe().try_get()
    }
}

} // verus!
