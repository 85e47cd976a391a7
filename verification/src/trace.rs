//! Channel identities, trace scopes and the structured events that channel
//! operations record.

use vstd::prelude::*;

verus! {

/// The 128-bit identity of one channel, shared by both of its halves.
#[derive(Clone, Copy, Debug, PartialEq, Eq, Structural)]
pub struct ChannelId {
    pub bits: u128,
}

/// Which half of which kind of channel a scope belongs to.
#[derive(Clone, Copy, Debug, PartialEq, Eq, Structural)]
pub enum Endpoint {
    MpscTx,
    MpscRx,
    OneshotTx,
    OneshotRx,
}

/// What an event reports.
#[derive(Clone, Copy, Debug, PartialEq, Eq, Structural)]
pub enum Message {
    /// A value is about to be handed to the channel.
    Sending,
    /// A receive attempt on a queue came to an end, with or without a value.
    MaybeReceived,
    /// A handoff resolved, to a value or to a disconnection.
    Received,
}

/// The trace context of one half of a channel: which half it is, and the
/// identity of the channel it belongs to.
#[derive(Clone, Copy, Debug, PartialEq, Eq, Structural)]
pub struct Scope {
    pub endpoint: Endpoint,
    pub id: ChannelId,
}

/// One debug-level event, attached to the scope that emitted it.
#[derive(Clone, Copy, Debug, PartialEq, Eq, Structural)]
pub struct TraceEvent {
    pub scope: Scope,
    pub message: Message,
}

/// The events recorded so far, oldest first.
#[derive(Debug)]
pub struct TraceLog {
    events: Vec<TraceEvent>,
}

/// The bits of an identity that hold its version and its variant.
pub const KIND_MASK: u128 = 0x0000_0000_0000_f000_c000_0000_0000_0000u128;

/// What those bits hold in a random identity: version 4, variant `10`.
pub const KIND_RANDOM: u128 = 0x0000_0000_0000_4000_8000_0000_0000_0000u128;

/// Asks `uuid::Uuid::new_v4` for a random identifier and hands it back as the
/// 128-bit integer that `Uuid::as_u128` gives. The value is random; all that
/// is claimed is that it is marked as version 4 of the standard variant, as
/// `new_v4` marks every identifier it makes.
#[verifier::external_body]
fn random_bits() -> (bits: u128)
    ensures
        bits & KIND_MASK == KIND_RANDOM,
{
    uuid::Uuid::new_v4().as_u128()
}

/// The events in `log`, followed by `event` where `resolved` holds.
pub open spec fn recorded_if(log: Seq<TraceEvent>, resolved: bool, event: TraceEvent) -> Seq<
    TraceEvent,
> {
    if resolved {
        log.push(event)
    } else {
        log
    }
}

impl ChannelId {
    /// The identity with the given 128 bits.
    pub fn from_bits(bits: u128) -> (id: Self)
        ensures
            id.bits == bits,
    {
        ChannelId { bits }
    }

    /// Whether the identity is marked as a random one.
    pub open spec fn is_random(self) -> bool {
        self.bits & KIND_MASK == KIND_RANDOM
    }

    /// A freshly drawn random identity.
    pub fn fresh() -> (id: Self)
        ensures
            id.is_random(),
    {
        ChannelId { bits: random_bits() }
    }

    /// The 128 bits of the identity.
    pub fn value(&self) -> (bits: u128)
        ensures
            bits == self.bits,
    {
        self.bits
    }

    /// The sixteen bytes of the identity, most significant first.
    pub open spec fn spec_bytes(self) -> Seq<u8> {
        seq![
            (self.bits >> 120u128) as u8,
            (self.bits >> 112u128) as u8,
            (self.bits >> 104u128) as u8,
            (self.bits >> 96u128) as u8,
            (self.bits >> 88u128) as u8,
            (self.bits >> 80u128) as u8,
            (self.bits >> 72u128) as u8,
            (self.bits >> 64u128) as u8,
            (self.bits >> 56u128) as u8,
            (self.bits >> 48u128) as u8,
            (self.bits >> 40u128) as u8,
            (self.bits >> 32u128) as u8,
            (self.bits >> 24u128) as u8,
            (self.bits >> 16u128) as u8,
            (self.bits >> 8u128) as u8,
            (self.bits >> 0u128) as u8,
        ]
    }

    /// The sixteen bytes of the identity, most significant first: the form
    /// in which it is handed to whatever renders it as text.
    pub fn bytes(&self) -> (out: [u8; 16])
        ensures
            out@ == self.spec_bytes(),
    {
        let out: [u8; 16] = [
            #[verifier::truncate] ((self.bits >> 120u128) as u8),
            #[verifier::truncate] ((self.bits >> 112u128) as u8),
            #[verifier::truncate] ((self.bits >> 104u128) as u8),
            #[verifier::truncate] ((self.bits >> 96u128) as u8),
            #[verifier::truncate] ((self.bits >> 88u128) as u8),
            #[verifier::truncate] ((self.bits >> 80u128) as u8),
            #[verifier::truncate] ((self.bits >> 72u128) as u8),
            #[verifier::truncate] ((self.bits >> 64u128) as u8),
            #[verifier::truncate] ((self.bits >> 56u128) as u8),
            #[verifier::truncate] ((self.bits >> 48u128) as u8),
            #[verifier::truncate] ((self.bits >> 40u128) as u8),
            #[verifier::truncate] ((self.bits >> 32u128) as u8),
            #[verifier::truncate] ((self.bits >> 24u128) as u8),
            #[verifier::truncate] ((self.bits >> 16u128) as u8),
            #[verifier::truncate] ((self.bits >> 8u128) as u8),
            #[verifier::truncate] ((self.bits >> 0u128) as u8),
        ];
        assert(out@ =~= self.spec_bytes());
        out
    }
}

impl Endpoint {
    /// The name under which the scope of this half is opened.
    pub open spec fn spec_name(self) -> Seq<char> {
        match self {
            Endpoint::MpscTx => "mpsc-tx"@,
            Endpoint::MpscRx => "mpsc-rx"@,
            Endpoint::OneshotTx => "oneshot-tx"@,
            Endpoint::OneshotRx => "oneshot-rx"@,
        }
    }

    /// The name under which the scope of this half is opened.
    pub fn name(&self) -> (text: &'static str)
        ensures
            text@ == self.spec_name(),
    {
        match self {
            Endpoint::MpscTx => "mpsc-tx",
            Endpoint::MpscRx => "mpsc-rx",
            Endpoint::OneshotTx => "oneshot-tx",
            Endpoint::OneshotRx => "oneshot-rx",
        }
    }
}

impl Message {
    /// The text of the event.
    pub open spec fn spec_text(self) -> Seq<char> {
        match self {
            Message::Sending => "Sending value"@,
            Message::MaybeReceived => "Maybe received value"@,
            Message::Received => "Received value"@,
        }
    }

    /// The text of the event.
    pub fn text(&self) -> (text: &'static str)
        ensures
            text@ == self.spec_text(),
    {
        match self {
            Message::Sending => "Sending value",
            Message::MaybeReceived => "Maybe received value",
            Message::Received => "Received value",
        }
    }
}

impl Scope {
    /// The event with the given message, attached to this scope.
    pub open spec fn spec_event(self, message: Message) -> TraceEvent {
        TraceEvent { scope: self, message }
    }

    /// The event with the given message, attached to this scope.
    pub fn event(&self, message: Message) -> (ev: TraceEvent)
        ensures
            ev == self.spec_event(message),
    {
        TraceEvent { scope: *self, message }
    }
}

impl View for TraceLog {
    type V = Seq<TraceEvent>;

    closed spec fn view(&self) -> Seq<TraceEvent> {
        self.events@
    }
}

impl TraceLog {
    /// A log that holds no event.
    pub fn new() -> (log: Self)
        ensures
            log@ == Seq::<TraceEvent>::empty(),
    {
        TraceLog { events: Vec::new() }
    }

    /// Appends one event.
    pub fn record(&mut self, event: TraceEvent)
        ensures
            final(self)@ == old(self)@.push(event),
    {
        self.events.push(event);
    }

    /// How many events were recorded.
    pub fn len(&self) -> (n: usize)
        ensures
            n == self@.len(),
    {
        self.events.len()
    }

    /// The event at position `i`, if there is one.
    pub fn get(&self, i: usize) -> (ev: Option<TraceEvent>)
        ensures
            ev == (if i < self@.len() { Some(self@[i as int]) } else { None }),
    {
        if i < self.events.len() {
            Some(self.events[i])
        } else {
            None
        }
    }

    /// Hands out every recorded event, oldest first, and leaves the log empty.
    pub fn drain(&mut self) -> (events: Vec<TraceEvent>)
        ensures
            events@ == old(self)@,
            final(self)@ == Seq::<TraceEvent>::empty(),
    {
        let mut taken: Vec<TraceEvent> = Vec::new();
        std::mem::swap(&mut self.events, &mut taken);
        taken
    }
}

} // verus!
