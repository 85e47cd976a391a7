//! A single-use handoff of one value from one producer to one consumer,
//! whose halves carry the identity of their channel and record what they do.
//!
//! The handoff itself is tokio's. The receiving half keeps, beside it, the
//! phase it is in: it starts pending and resolves once, to a value or to a
//! disconnection, and is not polled again after that.

use vstd::prelude::*;
use crate::outcome::Polled;
use crate::trace::{recorded_if, ChannelId, Endpoint, Message, Scope, TraceEvent, TraceLog};

verus! {

/// The producer went away without sending.
#[derive(Clone, Copy, Debug, PartialEq, Eq, Structural)]
pub struct Disconnection;

/// Where the receiving half stands.
#[derive(Clone, Copy, Debug, PartialEq, Eq, Structural)]
pub enum Phase {
    /// Nothing was sent yet, and the producer may still send.
    Pending,
    /// Resolved to the value that was sent.
    Value,
    /// Resolved to a disconnection.
    Disconnected,
}

/// What a receiving half yields when it resolves.
pub type Resolution<T> = Result<T, Disconnection>;

/// The producing half. Sending consumes it.
#[derive(Debug)]
#[verifier::reject_recursive_types(T)]
pub struct TracedSender<T> {
    tx: tokio::sync::oneshot::Sender<T>,
    id: ChannelId,
}

/// The consuming half.
#[derive(Debug)]
#[verifier::reject_recursive_types(T)]
pub struct TracedReceiver<T> {
    rx: tokio::sync::oneshot::Receiver<T>,
    id: ChannelId,
    phase: Phase,
}

/// Calls `tokio::sync::oneshot::channel`. Nothing is claimed of the two
/// handles.
#[verifier::external_body]
fn open_handoff<T>() -> (halves: (
    tokio::sync::oneshot::Sender<T>,
    tokio::sync::oneshot::Receiver<T>,
)) {
    tokio::sync::oneshot::channel::<T>()
}

/// Calls `tokio::sync::oneshot::Sender::send`. Whether the value is accepted
/// depends on the receiving handle; when it is not, the error is the very
/// value that was passed in.
#[verifier::external_body]
fn handoff_send<T>(tx: tokio::sync::oneshot::Sender<T>, value: T) -> (sent: Result<(), T>)
    ensures
        sent matches Err(v) ==> v == value,
{
    tx.send(value)
}

/// Calls `tokio::sync::oneshot::Receiver::try_recv`: the value once it was
/// sent, `Pending` while the producer has neither sent nor gone away, a
/// disconnection otherwise. Which of them depends on the sending handle, so
/// nothing is claimed.
#[verifier::external_body]
fn handoff_try_recv<T>(rx: &mut tokio::sync::oneshot::Receiver<T>) -> (got: Polled<Resolution<T>>) {
    match rx.try_recv() {
        Ok(v) => Polled::Ready(Ok(v)),
        Err(tokio::sync::oneshot::error::TryRecvError::Empty) => Polled::Pending,
        Err(tokio::sync::oneshot::error::TryRecvError::Closed) => Polled::Ready(Err(Disconnection)),
    }
}

/// Calls `tokio::sync::oneshot::Receiver::close`.
#[verifier::external_body]
fn handoff_close<T>(rx: &mut tokio::sync::oneshot::Receiver<T>) {
    rx.close()
}

/// The phase that a pending receiver is in after a poll that came to
/// `outcome`.
pub open spec fn phase_after<T, E>(outcome: Polled<Result<T, E>>) -> Phase {
    match outcome {
        Polled::Pending => Phase::Pending,
        Polled::Ready(Ok(_)) => Phase::Value,
        Polled::Ready(Err(_)) => Phase::Disconnected,
    }
}

/// Whether a caller may make a run of polls with these outcomes, one after
/// the other, on a receiver that starts pending: every poll but the last has
/// to leave it pending.
pub open spec fn polls_allowed<T, E>(outcomes: Seq<Polled<Result<T, E>>>) -> bool {
    forall|i: int| 0 <= i < outcomes.len() - 1 ==> outcomes[i] is Pending
}

/// The phase of a receiver that started pending, after a run of polls.
pub open spec fn phase_after_all<T, E>(outcomes: Seq<Polled<Result<T, E>>>) -> Phase {
    if outcomes.len() == 0 {
        Phase::Pending
    } else {
        phase_after(outcomes.last())
    }
}

/// What `log` has become after a run of polls of a receiver whose event is
/// `event`.
pub open spec fn log_after_all<T, E>(
    log: Seq<TraceEvent>,
    event: TraceEvent,
    outcomes: Seq<Polled<Result<T, E>>>,
) -> Seq<TraceEvent>
    decreases outcomes.len(),
{
    if outcomes.len() == 0 {
        log
    } else {
        recorded_if(
            log_after_all(log, event, outcomes.drop_last()),
            outcomes.last() is Ready,
            event,
        )
    }
}

/// Polls that all have to wait record nothing.
proof fn lemma_waiting_records_nothing<T, E>(
    log: Seq<TraceEvent>,
    event: TraceEvent,
    outcomes: Seq<Polled<Result<T, E>>>,
)
    requires
        forall|i: int| 0 <= i < outcomes.len() ==> outcomes[i] is Pending,
    ensures
        log_after_all(log, event, outcomes) == log,
    decreases outcomes.len(),
{
    if outcomes.len() > 0 {
        lemma_waiting_records_nothing(log, event, outcomes.drop_last());
    }
}

/// A receiver resolves at most once, and records its event exactly when it
/// does: over any run of polls that a caller may make, the log gains one
/// event if the run ended in a value or a disconnection, and none if the
/// receiver is still pending.
pub proof fn lemma_resolves_once<T, E>(
    log: Seq<TraceEvent>,
    event: TraceEvent,
    outcomes: Seq<Polled<Result<T, E>>>,
)
    requires
        polls_allowed(outcomes),
    ensures
        log_after_all(log, event, outcomes) == recorded_if(
            log,
            phase_after_all(outcomes) != Phase::Pending,
            event,
        ),
{
    if outcomes.len() > 0 {
        lemma_waiting_records_nothing(log, event, outcomes.drop_last());
    }
}

/// Both halves of a channel report under one identity: where a sender and a
/// receiver hold the same identity, every event that either of them records
/// carries it.
pub proof fn lemma_events_share_identity<T>(tx: TracedSender<T>, rx: TracedReceiver<T>)
    requires
        tx.id() == rx.id(),
    ensures
        tx.sending().scope.id == tx.id(),
        rx.received().scope.id == tx.id(),
{
}

/// Makes a handoff and its two halves, which share one fresh identity. The
/// receiving half starts pending.
pub fn channel<T>() -> (halves: (TracedSender<T>, TracedReceiver<T>))
    ensures
        halves.0.id() == halves.1.id(),
        halves.0.id().is_random(),
        halves.1.phase() == Phase::Pending,
{
    let (tx, rx) = open_handoff::<T>();
    let id = ChannelId::fresh();
    (TracedSender::new(tx, id), TracedReceiver::new(rx, id))
}

impl<T> TracedSender<T> {
    /// The identity of the channel this half belongs to.
    pub closed spec fn id(&self) -> ChannelId {
        self.id
    }

    /// The trace context of this half.
    pub open spec fn scope(&self) -> Scope {
        Scope { endpoint: Endpoint::OneshotTx, id: self.id() }
    }

    /// The event that a send records first.
    pub open spec fn sending(&self) -> TraceEvent {
        self.scope().spec_event(Message::Sending)
    }

    /// Wraps a sending handle as the producing half of the channel `id`.
    pub fn new(tx: tokio::sync::oneshot::Sender<T>, id: ChannelId) -> (sender: Self)
        ensures
            sender.id() == id,
    {
        TracedSender { tx, id }
    }

    /// Records that a value is being sent, then hands it over. Where the
    /// consumer is gone the value comes back unchanged.
    pub fn send(self, value: T, log: &mut TraceLog) -> (sent: Result<(), T>)
        ensures
            final(log)@ == old(log)@.push(self.sending()),
            sent matches Err(v) ==> v == value,
    {
        log.record(self.context().event(Message::Sending));
        handoff_send(self.tx, value)
    }

    /// The identity of the channel this half belongs to.
    pub fn identity(&self) -> (id: ChannelId)
        ensures
            id == self.id(),
    {
        self.id
    }

    /// The trace context of this half.
    pub fn context(&self) -> (scope: Scope)
        ensures
            scope == self.scope(),
    {
        Scope { endpoint: Endpoint::OneshotTx, id: self.id }
    }
}

impl<T> TracedReceiver<T> {
    /// The identity of the channel this half belongs to.
    pub closed spec fn id(&self) -> ChannelId {
        self.id
    }

    /// The receiving handle that this half wraps.
    pub closed spec fn wrapped(&self) -> tokio::sync::oneshot::Receiver<T> {
        self.rx
    }

    /// The trace context of this half.
    pub open spec fn scope(&self) -> Scope {
        Scope { endpoint: Endpoint::OneshotRx, id: self.id() }
    }

    /// The phase this half is in.
    pub closed spec fn phase(&self) -> Phase {
        self.phase
    }

    /// The event that is recorded when this half resolves.
    pub open spec fn received(&self) -> TraceEvent {
        self.scope().spec_event(Message::Received)
    }

    /// Wraps a receiving handle as the consuming half of the channel `id`,
    /// pending.
    pub fn new(rx: tokio::sync::oneshot::Receiver<T>, id: ChannelId) -> (receiver: Self)
        ensures
            receiver.id() == id,
            receiver.wrapped() == rx,
            receiver.phase() == Phase::Pending,
    {
        TracedReceiver {
            rx,
            id,
            phase: Phase::Pending,
        }
    }

    /// Takes what one poll of the handoff came to and moves this half on: a
    /// poll that has to wait changes nothing; one that resolved, to a value or
    /// to a failure, records one event and ends the pending phase. The
    /// outcome, whatever the type of its failure, is handed on untouched.
    pub fn resolve<E>(&mut self, outcome: Polled<Result<T, E>>, log: &mut TraceLog) -> (out: Polled<
        Result<T, E>,
    >)
        requires
            old(self).phase() == Phase::Pending,
        ensures
            out == outcome,
            final(self).phase() == phase_after(outcome),
            final(self).id() == old(self).id(),
            final(log)@ == recorded_if(old(log)@, outcome is Ready, old(self).received()),
    {
        match outcome {
            Polled::Pending => Polled::Pending,
            Polled::Ready(Ok(v)) => {
                log.record(self.context().event(Message::Received));
                self.phase = Phase::Value;
                Polled::Ready(Ok(v))
            },
            Polled::Ready(Err(e)) => {
                log.record(self.context().event(Message::Received));
                self.phase = Phase::Disconnected;
                Polled::Ready(Err(e))
            },
        }
    }

    /// Polls the handoff once. `Pending` while nothing was sent and the
    /// producer is still there; otherwise the value, or the disconnection. A
    /// half that resolved must not be polled again.
    pub fn poll(&mut self, log: &mut TraceLog) -> (got: Polled<Resolution<T>>)
        requires
            old(self).phase() == Phase::Pending,
        ensures
            final(self).phase() == phase_after(got),
            final(self).id() == old(self).id(),
            final(log)@ == recorded_if(old(log)@, got is Ready, old(self).received()),
    {
        let outcome = handoff_try_recv(&mut self.rx);
        self.resolve(outcome, log)
    }

    /// Tells the producer that no value will be accepted. The phase stays as
    /// it is, and no event is recorded.
    pub fn close(&mut self)
        ensures
            final(self).phase() == old(self).phase(),
            final(self).id() == old(self).id(),
    {
        handoff_close(&mut self.rx)
    }

    /// The phase this half is in.
    pub fn state(&self) -> (phase: Phase)
        ensures
            phase == self.phase(),
    {
        self.phase
    }

    /// The identity of the channel this half belongs to.
    pub fn identity(&self) -> (id: ChannelId)
        ensures
            id == self.id(),
    {
        self.id
    }

    /// The trace context of this half.
    pub fn context(&self) -> (scope: Scope)
        ensures
            scope == self.scope(),
    {
        Scope { endpoint: Endpoint::OneshotRx, id: self.id }
    }

    /// The wrapped receiving handle, for a caller that waits on it. What the
    /// caller leaves in it is what this half wraps afterwards.
    pub fn handle(&mut self) -> (rx: &mut tokio::sync::oneshot::Receiver<T>)
        ensures
            *rx == old(self).wrapped(),
            final(self).wrapped() == *final(rx),
            final(self).phase() == old(self).phase(),
            final(self).id() == old(self).id(),
    {
        &mut self.rx
    }
}

} // verus!
