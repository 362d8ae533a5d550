//! The global broadcast hub: one bounded fan-out channel of binary
//! payloads shared by every connection.
//!
//! Publishing never blocks: a payload is handed to the channel and every
//! receiver active at that moment will observe it, in publish order. A
//! subscriber that falls more than the channel capacity behind loses the
//! skipped messages and is told, once, how many it lost; it then resumes
//! from the new head. Publishing to a hub with no subscribers is reported
//! as an error carrying the payload back, and is not a fatal condition.
//!
//! The channel itself comes from tokio; this module pins down, as trusted
//! contracts checked against that crate's source, what each call can
//! return, and proves the hub's own behaviour against them.

use vstd::prelude::*;

verus! {

/// How many payloads the global channel retains for slow subscribers.
pub const GLOBAL_CHANNEL_CAPACITY: usize = 1024;

/// The sending half of tokio's broadcast channel, opaque here; what its
/// methods do is stated on the wrappers below.
#[verifier::external_type_specification]
#[verifier::external_body]
#[verifier::reject_recursive_types(T)]
pub struct ExBroadcastSender<T>(tokio::sync::broadcast::Sender<T>);

/// The receiving half of tokio's broadcast channel, opaque here.
#[verifier::external_type_specification]
#[verifier::external_body]
#[verifier::reject_recursive_types(T)]
pub struct ExBroadcastReceiver<T>(tokio::sync::broadcast::Receiver<T>);

/// Publishing failed because the hub had no subscribers; the payload is
/// handed back untouched.
#[derive(Debug)]
pub struct PublishError {
    pub payload: Vec<u8>,
}

/// One attempt to take the next pending payload from a subscription.
pub enum RecvOutcome {
    /// The next payload, in publish order.
    Received(Vec<u8>),
    /// Nothing is pending right now.
    Empty,
    /// The subscriber fell behind and this many payloads were skipped;
    /// reported once, after which delivery resumes from the new head.
    Lagged(u64),
    /// The hub side is gone; no further payloads will arrive.
    Closed,
}

/// Relies on `tokio::sync::broadcast::channel`: creates a channel with the
/// given capacity and returns its sending half. The receiver created
/// alongside is dropped, so a fresh hub has no subscribers. The call panics
/// on capacity zero or above `usize::MAX / 2`, which the precondition
/// excludes.
#[verifier::external_body]
fn broadcast_channel_sender(capacity: usize) -> tokio::sync::broadcast::Sender<Vec<u8>>
    requires
        0 < capacity <= usize::MAX / 2,
{
    let (sender, _) = tokio::sync::broadcast::channel(capacity);
    sender
}

/// Relies on `tokio::sync::broadcast::Sender::send`: the value is enqueued
/// for every receiver active at the call — their count, at least one, is
/// returned — and the call fails, handing the value back, exactly when
/// there is no active receiver. The call never blocks.
#[verifier::external_body]
fn broadcast_send(
    sender: &tokio::sync::broadcast::Sender<Vec<u8>>,
    msg: Vec<u8>,
) -> (r: Result<usize, PublishError>)
    ensures
        r matches Ok(n) ==> n >= 1,
        r matches Err(e) ==> e.payload@ == msg@,
{
    sender.send(msg).map_err(|e| PublishError { payload: e.0 })
}

/// Relies on `tokio::sync::broadcast::Sender::subscribe`: returns a fresh
/// receiving half positioned at the current head of the channel, seeing
/// only values sent after this call.
#[verifier::external_body]
fn broadcast_subscribe(
    sender: &tokio::sync::broadcast::Sender<Vec<u8>>,
) -> tokio::sync::broadcast::Receiver<Vec<u8>>
{
    sender.subscribe()
}

/// Relies on `tokio::sync::broadcast::Receiver::try_recv`: yields the next
/// pending value in publish order, or reports that none is pending, that
/// the receiver skipped values after falling behind the channel capacity,
/// or that the sending side is gone. Each variant is passed through
/// unchanged; nothing can be promised of which occurs, as that depends on
/// what other tasks have done.
#[verifier::external_body]
fn broadcast_try_recv(rx: &mut tokio::sync::broadcast::Receiver<Vec<u8>>) -> RecvOutcome {
    match rx.try_recv() {
        Ok(v) => RecvOutcome::Received(v),
        Err(tokio::sync::broadcast::error::TryRecvError::Empty) => RecvOutcome::Empty,
        Err(tokio::sync::broadcast::error::TryRecvError::Lagged(n)) => RecvOutcome::Lagged(n),
        Err(tokio::sync::broadcast::error::TryRecvError::Closed) => RecvOutcome::Closed,
    }
}

/// The shared fan-out channel that republishes binary payloads to every
/// currently-subscribed connection.
pub struct BroadcastHub {
    global_sender: tokio::sync::broadcast::Sender<Vec<u8>>,
}

impl BroadcastHub {
    /// A fresh hub with the standard capacity and no subscribers.
    pub fn new() -> Self {
        BroadcastHub { global_sender: broadcast_channel_sender(GLOBAL_CHANNEL_CAPACITY) }
    }

    /// Publish a payload to every current subscriber without blocking.
    /// On success the number of subscribers it was enqueued for — at least
    /// one — is returned; with no subscribers the payload comes back as an
    /// error, which callers must not treat as fatal.
    pub fn send_global_message(&self, msg: Vec<u8>) -> (r: Result<usize, PublishError>)
        ensures
            r matches Ok(n) ==> n >= 1,
            r matches Err(e) ==> e.payload@ == msg@,
    {
        broadcast_send(&self.global_sender, msg)
    }

    /// A fresh subscription positioned at the current head: it observes
    /// exactly the payloads published after this call, in publish order,
    /// until it falls behind by more than the channel capacity.
    pub fn subscribe_global_messages(&self) -> tokio::sync::broadcast::Receiver<Vec<u8>> {
        broadcast_subscribe(&self.global_sender)
    }
}

/// Take the next pending payload from a subscription, without blocking.
pub fn try_receive_global(rx: &mut tokio::sync::broadcast::Receiver<Vec<u8>>) -> RecvOutcome {
    broadcast_try_recv(rx)
}

} // verus!
