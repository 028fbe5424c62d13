//! The bounded channels that connect two actors of a transport.
use vstd::prelude::*;

verus! {

/// How many messages a channel between two actors holds before its sender has to wait.
pub const CHANNEL_CAPACITY: usize = 500;

/// The sending end of a bounded channel.
#[verifier::reject_recursive_types(T)]
pub struct Outbox<T> {
    capacity: usize,
    peer: Ghost<tokio::sync::mpsc::Receiver<T>>,
    inner: tokio::sync::mpsc::Sender<T>,
}

/// The receiving end of a bounded channel.
#[verifier::reject_recursive_types(T)]
pub struct Inbox<T> {
    capacity: usize,
    inner: tokio::sync::mpsc::Receiver<T>,
}

impl<T> Outbox<T> {
    /// How many messages the channel holds before a send has to wait.
    pub closed spec fn capacity(self) -> usize {
        self.capacity
    }

    /// The receiving end of the same channel.
    pub closed spec fn peer(self) -> tokio::sync::mpsc::Receiver<T> {
        self.peer@
    }

    /// The channel's end itself, to be sent on.
    pub closed spec fn handle(self) -> tokio::sync::mpsc::Sender<T> {
        self.inner
    }

    /// The channel's end itself, to be sent on.
    pub fn inner(&self) -> (sender: &tokio::sync::mpsc::Sender<T>)
        ensures
            *sender == self.handle(),
    {
        &self.inner
    }
}

impl<T> Inbox<T> {
    /// How many messages the channel holds before a send has to wait.
    pub closed spec fn capacity(self) -> usize {
        self.capacity
    }

    /// The channel's end itself, to be received from.
    pub closed spec fn handle(self) -> tokio::sync::mpsc::Receiver<T> {
        self.inner
    }

    /// The channel's end itself, to be received from.
    pub fn into_inner(self) -> (receiver: tokio::sync::mpsc::Receiver<T>)
        ensures
            receiver == self.handle(),
    {
        self.inner
    }
}

/// Calls `tokio::sync::mpsc::channel`, which makes a channel that buffers up to `capacity`
/// messages and delivers them in the order in which they were sent. It panics on a capacity of
/// zero and above an eighth of the range of `usize`.
#[verifier::external_body]
fn bounded<T>(capacity: usize) -> (ends: (Outbox<T>, Inbox<T>))
    requires
        0 < capacity <= usize::MAX / 8,
    ensures
        ends.0.capacity() == capacity,
        ends.1.capacity() == capacity,
        ends.0.peer() == ends.1.handle(),
{
    let (sender, receiver) = tokio::sync::mpsc::channel(capacity);
    let peer = Ghost(receiver);
    (Outbox { capacity, peer, inner: sender }, Inbox { capacity, inner: receiver })
}

/// A new channel between two actors.
pub fn channel<T>() -> (ends: (Outbox<T>, Inbox<T>))
    ensures
        ends.0.capacity() == CHANNEL_CAPACITY,
        ends.0.capacity() == 500,
        ends.1.capacity() == CHANNEL_CAPACITY,
        ends.0.peer() == ends.1.handle(),
{
    bounded(CHANNEL_CAPACITY)
}

} // verus!
