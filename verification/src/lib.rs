//! Decision core of a small network messaging tool.
//!
//! Three delivery modes are covered: unicast (over TCP or UDP), multicast and
//! broadcast, each with a one-shot sender and a long-running receiver. The
//! crate performs no I/O. It says which socket operations a role needs, how a
//! receiver reacts to each thing its socket reports, and what is logged; the
//! caller performs the operations and reports back what happened.

use crate::lifecycle::{Command, Effect, EffectView, Phase, State};
use crate::line::LogLine;
use crate::script::{Script, ScriptView};
use crate::transport::Transport;
use vstd::prelude::*;

pub mod broadcast;
pub mod endpoint;
pub mod event;
pub mod lifecycle;
pub mod line;
pub mod multicast;
pub mod script;
pub mod text;
pub mod transport;
pub mod unicast;


verus! {

/// A one-shot sender: it transmits one message and is done. It holds no
/// socket; every transmission opens its own.
pub trait NetSender {
    /// The transport the sender speaks.
    spec fn transport() -> Transport;

    /// The name the sender is logged under.
    fn name() -> (name: &'static str)
        ensures
            name@ == Self::transport().label(),
    ;

    /// The script that transmits `msg` to `addr`. Performing it is fire and
    /// forget: the first operation that fails is fatal, nothing is retried
    /// and nothing is awaited.
    fn send(addr: &str, msg: &str) -> (script: Script)
        ensures
            script@ == script::send_script(Self::transport(), addr@, msg@),
    ;

    /// The uniform entry point: the announcement to log, then the script to
    /// perform.
    fn run(addr: &str, msg: &str) -> (out: (LogLine, Script))
        ensures
            out.0@ == line::sender_started(Self::transport().label()),
            out.1@ == script::send_script(Self::transport(), addr@, msg@),
    {
        (LogLine::sender_started(Self::name()), Self::send(addr, msg))
    }
}

/// The mathematical content of a receiver.
pub struct ReceiverView {
    /// Where the receiver stands in its life.
    pub state: State,
    /// The script that sets up its socket.
    pub setup: ScriptView,
    /// What it logs once its socket is set up.
    pub greeting: EffectView,
}

/// A long-running receiver. It is constructed, has its socket set up by the
/// caller, and then runs a loop that ends only when the cancellation signal
/// is observed.
pub trait NetReceiver: Sized {
    /// The transport the receiver speaks.
    spec fn transport() -> Transport;

    spec fn model(&self) -> ReceiverView;

    /// The name the receiver is logged under.
    fn name() -> (name: &'static str)
        ensures
            name@ == Self::transport().label(),
    ;

    /// The script that binds (and joins) the receiver's socket. Its first
    /// failure is fatal.
    fn plan(&self) -> (script: Script)
        ensures
            script@ == self.model().setup,
    ;

    /// Takes the report that the script completed, with the local address
    /// the socket resolved to.
    fn bind(&mut self, local: String) -> (effect: Effect)
        ensures
            final(self).model() == (ReceiverView {
                state: old(self).model().state.bind(local@),
                ..old(self).model()
            }),
            effect@ == if old(self).model().state.phase == Phase::Unbound {
                old(self).model().greeting
            } else {
                EffectView::Nothing
            },
    ;

    /// The resolved local address; `None` while unbound.
    fn addr(&self) -> (addr: Option<String>)
        ensures
            addr is Some <==> self.model().state.phase != Phase::Unbound,
            addr is Some ==> addr->0@ == self.model().state.local,
    ;

    /// Starts the receive loop; the effect is the announcement to log.
    fn run(&mut self) -> (effect: Effect)
        ensures
            final(self).model() == (ReceiverView {
                state: old(self).model().state.start(Self::transport()),
                ..old(self).model()
            }),
            effect@ == old(self).model().state.announce(Self::transport()),
    ;

    /// The outside work to do next.
    fn next(&self) -> (command: Command)
        ensures
            command == self.model().state.command(Self::transport()),
    ;

    /// One step of the loop: takes the report on the work last asked for and
    /// says what to do about it.
    fn receive(&mut self, event: event::Event) -> (effect: Effect)
        ensures
            final(self).model() == (ReceiverView {
                state: old(self).model().state.step(Self::transport(), event@),
                ..old(self).model()
            }),
            effect@ == old(self).model().state.react(Self::transport(), event@),
    ;
}

/// What is sent is what is logged. Take the payload a sender's script sends
/// for `message`, no longer than the receive buffer, and let it arrive in a
/// buffer of `CAPACITY` bytes, reported with its length. Then a
/// connectionless receiver logs, and a served connection yields, the line
/// that names the origin and gives the message unchanged.
pub proof fn lemma_message_observed_intact(
    transport: Transport,
    address: Seq<char>,
    message: Seq<char>,
    origin: Seq<char>,
    buffer: Seq<u8>,
)
    requires
        script::send_script(transport, address, message).payload.len() <= event::CAPACITY,
        buffer.len() == event::CAPACITY,
        buffer.take(script::send_script(transport, address, message).payload.len() as int)
            == script::send_script(transport, address, message).payload,
    ensures
        ({
            let sent = script::send_script(transport, address, message).payload;
            let seen = event::captured(buffer, sent.len());
            &&& seen == sent
            &&& lifecycle::deliver(event::ArrivalView::Datagram { payload: seen, origin })
                == EffectView::Log(line::received(origin, message))
            &&& unicast::served(origin, event::ReadView::Data(seen)) == line::received(
                origin,
                message,
            )
        }),
{
    let sent = script::send_script(transport, address, message).payload;
    event::lemma_buffer_prefix_captured(buffer, sent);
    text::lemma_printable_of_encoding(message);
}

} // verus!
