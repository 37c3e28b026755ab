use vstd::prelude::*;

use tokio::sync::broadcast::{Receiver, Sender};

verus! {

/// What subscribers are told; they load the game again on each event.
#[derive(Debug, Clone, Copy, PartialEq, Eq, Structural)]
pub enum TysiacEvent {
    ScoreUpdated,
    NewGame,
}

#[verifier::external_type_specification]
#[verifier::external_body]
#[verifier::reject_recursive_types(T)]
pub struct ExSender<T>(Sender<T>);

#[verifier::external_type_specification]
#[verifier::external_body]
#[verifier::reject_recursive_types(T)]
pub struct ExReceiver<T>(Receiver<T>);

/// How many events each subscriber may fall behind before its oldest are dropped.
pub const EVENT_BUFFER: usize = 16;

/// The number of events a channel keeps for each subscriber.
pub uninterp spec fn channel_capacity(sender: Sender<TysiacEvent>) -> nat;

/// Whether `n` is a power of two.
pub open spec fn is_power_of_two(n: nat) -> bool
    decreases n,
{
    if n <= 1 {
        n == 1
    } else {
        n % 2 == 0 && is_power_of_two(n / 2)
    }
}

/// Relies on tokio's `broadcast::channel`: a fresh channel keeping up to `capacity`
/// events per subscriber, rounded up to a power of two. It panics on a capacity of zero
/// or above `usize::MAX / 2`. The receiver it also makes is dropped at once.
#[verifier::external_body]
fn broadcast_channel(capacity: usize) -> (r: Sender<TysiacEvent>)
    requires
        0 < capacity <= usize::MAX / 2,
    ensures
        is_power_of_two(capacity as nat) ==> channel_capacity(r) == capacity,
{
    tokio::sync::broadcast::channel(capacity).0
}

/// Relies on tokio's `Sender::send`: it fails only when no receiver is subscribed, and
/// on success reports how many receivers were subscribed, at least one.
#[verifier::external_body]
fn broadcast_send(sender: &Sender<TysiacEvent>, event: TysiacEvent) -> (r: Option<usize>)
    ensures
        r matches Some(n) ==> n >= 1,
{
    sender.send(event).ok()
}

/// Relies on tokio's `Sender::subscribe`: a receiver of the events sent after this call.
/// It panics only once `usize::MAX >> 2` receivers are alive at the same time.
#[verifier::external_body]
fn broadcast_subscribe(sender: &Sender<TysiacEvent>) -> Receiver<TysiacEvent> {
    sender.subscribe()
}

/// The live-update hub shared by all requests: each event goes to every subscriber
/// present when it is published, and to nobody when there is none.
pub struct TysiacContext {
    sender: Sender<TysiacEvent>,
}

impl Default for TysiacContext {
    fn default() -> (r: Self)
        ensures
            r.capacity() == EVENT_BUFFER,
    {
        proof {
            reveal_with_fuel(is_power_of_two, 6);
        }
        TysiacContext { sender: broadcast_channel(EVENT_BUFFER) }
    }
}

impl TysiacContext {
    /// How many events each subscriber may fall behind before its oldest are dropped.
    pub closed spec fn capacity(&self) -> nat {
        channel_capacity(self.sender)
    }

    /// Publishes `event` without waiting for anyone, and returns the number of subscribers
    /// it went to; with none, the event is discarded and the result is 0.
    pub fn publish(&self, event: TysiacEvent) -> (r: usize) {
        match broadcast_send(&self.sender, event) {
            Some(n) => n,
            None => 0,
        }
    }

    /// A new subscription, which sees the events published from now on, in order.
    pub fn subscribe(&self) -> Receiver<TysiacEvent> {
        broadcast_subscribe(&self.sender)
    }
}

} // verus!
