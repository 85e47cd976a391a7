//! A bounded queue with many producers and one consumer, whose halves carry
//! the identity of their channel and record what they do.
//!
//! The queue itself is tokio's. Its state is shared between the halves and
//! changes under the hands of other tasks, so the contracts here say what
//! holds of every answer the queue can give: which events are recorded, that
//! a value that was not delivered comes back unchanged, and that no operation
//! changes the identity of a half.

use vstd::prelude::*;
use crate::outcome::Polled;
use crate::trace::{recorded_if, ChannelId, Endpoint, Message, Scope, TraceEvent, TraceLog};

verus! {

/// The largest buffer that a queue can be made with.
pub const MAX_BUFFER: usize = usize::MAX / 8;

/// A send failed because the consuming side is gone; the value comes back.
#[derive(Debug, PartialEq, Eq)]
pub struct SendError<T>(pub T);

/// What one attempt to send came to.
#[derive(Debug, PartialEq, Eq)]
pub enum Sent<T> {
    /// The queue took the value.
    Delivered,
    /// The queue is full: the caller has to wait for space. The value comes
    /// back.
    Full(T),
    /// The consuming side was closed or dropped.
    Closed(SendError<T>),
}

/// The producing half. It can be cloned; every clone belongs to the same
/// channel.
#[derive(Debug)]
#[verifier::reject_recursive_types(T)]
pub struct TracedSender<T> {
    tx: tokio::sync::mpsc::Sender<T>,
    id: ChannelId,
}

/// The consuming half.
#[derive(Debug)]
#[verifier::reject_recursive_types(T)]
pub struct TracedReceiver<T> {
    rx: tokio::sync::mpsc::Receiver<T>,
    id: ChannelId,
}

/// Calls `tokio::sync::mpsc::channel`, which panics on a buffer of zero and
/// on one above `usize::MAX >> 3`; both are left out. Nothing is claimed of
/// the two handles.
#[verifier::external_body]
fn open_queue<T>(buffer: usize) -> (halves: (
    tokio::sync::mpsc::Sender<T>,
    tokio::sync::mpsc::Receiver<T>,
))
    requires
        0 < buffer <= MAX_BUFFER,
{
    tokio::sync::mpsc::channel::<T>(buffer)
}

/// Calls `tokio::sync::mpsc::Sender::try_send`. Whether the queue takes the
/// value depends on the other handles; when it does not, the error holds the
/// very value that was passed in, and it says whether the queue was full or
/// closed.
#[verifier::external_body]
fn queue_try_send<T>(tx: &tokio::sync::mpsc::Sender<T>, value: T) -> (sent: Sent<T>)
    ensures
        sent matches Sent::Full(v) ==> v == value,
        sent matches Sent::Closed(e) ==> e.0 == value,
{
    match tx.try_send(value) {
        Ok(()) => Sent::Delivered,
        Err(tokio::sync::mpsc::error::TrySendError::Full(v)) => Sent::Full(v),
        Err(tokio::sync::mpsc::error::TrySendError::Closed(v)) => Sent::Closed(SendError(v)),
    }
}

/// Calls `tokio::sync::mpsc::Receiver::try_recv`: a queued value, `Pending`
/// for a queue that is empty while producers remain, `Ready(None)` for one
/// that is drained and disconnected. Which of them depends on the other
/// handles, so nothing is claimed.
#[verifier::external_body]
fn queue_try_recv<T>(rx: &mut tokio::sync::mpsc::Receiver<T>) -> (got: Polled<Option<T>>) {
    match rx.try_recv() {
        Ok(v) => Polled::Ready(Some(v)),
        Err(tokio::sync::mpsc::error::TryRecvError::Empty) => Polled::Pending,
        Err(tokio::sync::mpsc::error::TryRecvError::Disconnected) => Polled::Ready(None),
    }
}

/// Calls `tokio::sync::mpsc::Receiver::close`.
#[verifier::external_body]
fn queue_close<T>(rx: &mut tokio::sync::mpsc::Receiver<T>) {
    rx.close()
}

/// Calls `Clone::clone` of `tokio::sync::mpsc::Sender`, which gives another
/// handle to the same queue.
#[verifier::external_body]
fn queue_share<T>(tx: &tokio::sync::mpsc::Sender<T>) -> (other: tokio::sync::mpsc::Sender<T>) {
    tx.clone()
}

/// Both halves of a channel report under one identity: where a sender and a
/// receiver hold the same identity, every event that either of them records
/// carries it.
pub proof fn lemma_events_share_identity<T>(tx: TracedSender<T>, rx: TracedReceiver<T>)
    requires
        tx.id() == rx.id(),
    ensures
        tx.sending().scope.id == tx.id(),
        rx.maybe_received().scope.id == tx.id(),
{
}

/// Makes a bounded queue that holds up to `buffer` values, and its two
/// halves, which share one fresh identity.
pub fn channel<T>(buffer: usize) -> (halves: (TracedSender<T>, TracedReceiver<T>))
    requires
        0 < buffer <= MAX_BUFFER,
    ensures
        halves.0.id() == halves.1.id(),
        halves.0.id().is_random(),
{
    let (tx, rx) = open_queue::<T>(buffer);
    let id = ChannelId::fresh();
    (TracedSender::new(tx, id), TracedReceiver::new(rx, id))
}

impl<T> TracedSender<T> {
    /// The identity of the channel this half belongs to.
    pub closed spec fn id(&self) -> ChannelId {
        self.id
    }

    /// The producer handle that this half wraps.
    pub closed spec fn wrapped(&self) -> tokio::sync::mpsc::Sender<T> {
        self.tx
    }

    /// The trace context of this half.
    pub open spec fn scope(&self) -> Scope {
        Scope { endpoint: Endpoint::MpscTx, id: self.id() }
    }

    /// The event that every send records first.
    pub open spec fn sending(&self) -> TraceEvent {
        self.scope().spec_event(Message::Sending)
    }

    /// Wraps a producer handle as the sending half of the channel `id`.
    pub fn new(tx: tokio::sync::mpsc::Sender<T>, id: ChannelId) -> (sender: Self)
        ensures
            sender.id() == id,
            sender.wrapped() == tx,
    {
        TracedSender { tx, id }
    }

    /// Records that a value is being sent, then offers it to the queue once.
    /// A value that the queue did not take comes back unchanged: in `Full`
    /// when the caller has to wait for space, in `Closed` when the consumer is
    /// gone.
    pub fn send(&self, value: T, log: &mut TraceLog) -> (sent: Sent<T>)
        ensures
            final(log)@ == old(log)@.push(self.sending()),
            sent matches Sent::Full(v) ==> v == value,
            sent matches Sent::Closed(e) ==> e.0 == value,
    {
        log.record(self.context().event(Message::Sending));
        queue_try_send(&self.tx, value)
    }

    /// The identity of the channel this half belongs to.
    pub fn identity(&self) -> (id: ChannelId)
        ensures
            id == self.id(),
    {
        self.id
    }

    /// The trace context of this half.
    pub fn context(&self) -> (scope: Scope)
        ensures
            scope == self.scope(),
    {
        Scope { endpoint: Endpoint::MpscTx, id: self.id }
    }

    /// The wrapped producer handle, for a caller that waits on it.
    pub fn handle(&self) -> (tx: &tokio::sync::mpsc::Sender<T>)
        ensures
            *tx == self.wrapped(),
    {
        &self.tx
    }
}

impl<T> Clone for TracedSender<T> {
    /// Another handle to the same queue, with the same trace context.
    fn clone(&self) -> (other: Self)
        ensures
            other.id() == self.id(),
    {
        TracedSender { tx: queue_share(&self.tx), id: self.id }
    }
}

impl<T> TracedReceiver<T> {
    /// The identity of the channel this half belongs to.
    pub closed spec fn id(&self) -> ChannelId {
        self.id
    }

    /// The consumer handle that this half wraps.
    pub closed spec fn wrapped(&self) -> tokio::sync::mpsc::Receiver<T> {
        self.rx
    }

    /// The trace context of this half.
    pub open spec fn scope(&self) -> Scope {
        Scope { endpoint: Endpoint::MpscRx, id: self.id() }
    }

    /// The event that a receive records once it resolved.
    pub open spec fn maybe_received(&self) -> TraceEvent {
        self.scope().spec_event(Message::MaybeReceived)
    }

    /// Wraps a consumer handle as the receiving half of the channel `id`.
    pub fn new(rx: tokio::sync::mpsc::Receiver<T>, id: ChannelId) -> (receiver: Self)
        ensures
            receiver.id() == id,
            receiver.wrapped() == rx,
    {
        TracedReceiver { rx, id }
    }

    /// Takes what one receive attempt came to and records it: an attempt that
    /// resolved, to a value or to the end of the stream, leaves one event;
    /// one that has to wait leaves none. The outcome is handed on untouched.
    pub fn observe(&self, got: Polled<Option<T>>, log: &mut TraceLog) -> (out: Polled<Option<T>>)
        ensures
            out == got,
            final(log)@ == recorded_if(old(log)@, got is Ready, self.maybe_received()),
    {
        match got {
            Polled::Pending => Polled::Pending,
            Polled::Ready(v) => {
                log.record(self.context().event(Message::MaybeReceived));
                Polled::Ready(v)
            },
        }
    }

    /// Asks the queue once for the next value. `Ready(Some(v))` is a queued
    /// value, `Ready(None)` the end of the stream, `Pending` an empty queue
    /// that may still be fed. An event is recorded after the attempt, exactly
    /// when it resolved.
    pub fn recv(&mut self, log: &mut TraceLog) -> (got: Polled<Option<T>>)
        ensures
            final(self).id() == old(self).id(),
            final(log)@ == recorded_if(old(log)@, got is Ready, old(self).maybe_received()),
    {
        let got = queue_try_recv(&mut self.rx);
        self.observe(got, log)
    }

    /// Closes the queue for new values; what is queued can still be received.
    /// No event is recorded.
    pub fn close(&mut self)
        ensures
            final(self).id() == old(self).id(),
    {
        queue_close(&mut self.rx)
    }

    /// The identity of the channel this half belongs to.
    pub fn identity(&self) -> (id: ChannelId)
        ensures
            id == self.id(),
    {
        self.id
    }

    /// The trace context of this half.
    pub fn context(&self) -> (scope: Scope)
        ensures
            scope == self.scope(),
    {
        Scope { endpoint: Endpoint::MpscRx, id: self.id }
    }

    /// The wrapped consumer handle, for a caller that waits on it. What the
    /// caller leaves in it is what this half wraps afterwards.
    pub fn handle(&mut self) -> (rx: &mut tokio::sync::mpsc::Receiver<T>)
        ensures
            *rx == old(self).wrapped(),
            final(self).wrapped() == *final(rx),
            final(self).id() == old(self).id(),
    {
        &mut self.rx
    }
}

} // verus!
