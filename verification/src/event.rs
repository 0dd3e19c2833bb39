//! What a socket reports back: the values a caller hands to a receiver after
//! each piece of outside work.

use vstd::prelude::*;
use vstd::slice::*;

verus! {

/// The size of the buffer every receive and read fills. Whatever a peer sends
/// beyond it is not seen.
pub const CAPACITY: usize = 1024;

/// How a failed socket call is classified.
#[derive(Clone, Copy, Debug, PartialEq, Eq, Structural)]
pub enum Cause {
    /// Nothing was available on a socket that does not wait.
    WouldBlock,
    /// Nothing arrived within the waiting budget.
    TimedOut,
    /// Anything else.
    Other,
}

/// A failed socket call: its classification and its message.
#[derive(Debug)]
pub struct Fault {
    pub cause: Cause,
    pub text: String,
}

pub struct FaultView {
    pub cause: Cause,
    pub text: Seq<char>,
}

impl View for Fault {
    type V = FaultView;

    open spec fn view(&self) -> FaultView {
        FaultView { cause: self.cause, text: self.text@ }
    }
}

/// The part of a buffer that one receive filled.
pub open spec fn captured(buffer: Seq<u8>, size: nat) -> Seq<u8> {
    let fit = if buffer.len() <= CAPACITY { buffer.len() } else { CAPACITY as nat };
    buffer.take((if size <= fit { size } else { fit }) as int)
}

/// The bytes of one inbound message, never more than `CAPACITY` of them.
#[derive(Debug)]
pub struct Payload {
    bytes: Vec<u8>,
}

impl View for Payload {
    type V = Seq<u8>;

    closed spec fn view(&self) -> Seq<u8> {
        self.bytes@
    }
}

impl Payload {
    #[verifier::type_invariant]
    spec fn bounded(&self) -> bool {
        self.bytes@.len() <= CAPACITY
    }

    /// Takes the first `size` bytes of a receive buffer, stopping at the end
    /// of the buffer and at `CAPACITY`.
    pub fn capture(buffer: &[u8], size: usize) -> (payload: Payload)
        ensures
            payload@ == captured(buffer@, size as nat),
    {
        let fit: usize = if buffer.len() <= CAPACITY { buffer.len() } else { CAPACITY };
        let end: usize = if size <= fit { size } else { fit };
        let bytes = slice_to_vec(slice_subrange(buffer, 0, end));
        Payload { bytes }
    }

    /// The number of bytes held.
    pub fn len(&self) -> (n: usize)
        ensures
            n == self@.len(),
            n <= CAPACITY,
    {
        proof {
            use_type_invariant(self);
        }
        self.bytes.len()
    }

    /// The bytes held.
    pub fn as_slice(&self) -> (bytes: &[u8])
        ensures
            bytes@ == self@,
    {
        self.bytes.as_slice()
    }
}

/// The outcome of one attempt to receive a datagram.
#[derive(Debug)]
pub enum Arrival {
    /// A datagram came in from `origin`.
    Datagram { payload: Payload, origin: String },
    /// The attempt failed, or nothing arrived in time.
    Failed(Fault),
}

pub enum ArrivalView {
    Datagram { payload: Seq<u8>, origin: Seq<char> },
    Failed(FaultView),
}

impl View for Arrival {
    type V = ArrivalView;

    open spec fn view(&self) -> ArrivalView {
        match self {
            Arrival::Datagram { payload, origin } => ArrivalView::Datagram {
                payload: payload@,
                origin: origin@,
            },
            Arrival::Failed(failure) => ArrivalView::Failed(failure@),
        }
    }
}

/// The outcome of one attempt to accept a connection.
#[derive(Debug)]
pub enum Accept {
    /// A peer connected; the caller holds the connection.
    Connection,
    /// The attempt failed, or no peer was waiting.
    Failed(Fault),
}

pub enum AcceptView {
    Connection,
    Failed(FaultView),
}

impl View for Accept {
    type V = AcceptView;

    open spec fn view(&self) -> AcceptView {
        match self {
            Accept::Connection => AcceptView::Connection,
            Accept::Failed(failure) => AcceptView::Failed(failure@),
        }
    }
}

/// The outcome of the single read made on an accepted connection.
#[derive(Debug)]
pub enum Read {
    /// The read returned these bytes.
    Data(Payload),
    /// The read failed.
    Failed(Fault),
}

pub enum ReadView {
    Data(Seq<u8>),
    Failed(FaultView),
}

impl View for Read {
    type V = ReadView;

    open spec fn view(&self) -> ReadView {
        match self {
            Read::Data(payload) => ReadView::Data(payload@),
            Read::Failed(failure) => ReadView::Failed(failure@),
        }
    }
}

/// Anything a running receiver is told.
#[derive(Debug)]
pub enum Event {
    /// The cancellation signal was polled; `fired` says whether it had been
    /// raised.
    Signal { fired: bool },
    /// A receive on a connectionless socket returned.
    Arrival(Arrival),
    /// An accept on a listening socket returned.
    Accept(Accept),
}

pub enum EventView {
    Signal { fired: bool },
    Arrival(ArrivalView),
    Accept(AcceptView),
}

impl View for Event {
    type V = EventView;

    open spec fn view(&self) -> EventView {
        match self {
            Event::Signal { fired } => EventView::Signal { fired: *fired },
            Event::Arrival(arrival) => EventView::Arrival(arrival@),
            Event::Accept(accept) => EventView::Accept(accept@),
        }
    }
}

/// A buffer of `CAPACITY` bytes holding a message no longer than itself gives
/// the message back when asked for as many bytes as the message has.
pub proof fn lemma_buffer_prefix_captured(buffer: Seq<u8>, message: Seq<u8>)
    requires
        buffer.len() == CAPACITY,
        message.len() <= CAPACITY,
        buffer.take(message.len() as int) == message,
    ensures
        captured(buffer, message.len()) == message,
{
}

} // verus!
