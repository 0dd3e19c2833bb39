//! Point-to-point delivery, over TCP or UDP.

use crate::event::{Cause, Event, Read, ReadView};
use crate::lifecycle::{Command, Effect, EffectView, Lifecycle, State};
use crate::line;
use crate::line::{LogLine, LogLineView};
use crate::script::{Script, ScriptView, SocketOp, WAIT_MILLIS};
use crate::text;
use crate::transport::Transport;
use crate::{NetReceiver, NetSender, ReceiverView};
use vstd::prelude::*;
use vstd::string::*;

verus! {

/// Sends one message over a fresh connection: connect, write, close.
pub struct TCPSender;

impl NetSender for TCPSender {
    open spec fn transport() -> Transport {
        Transport::UnicastTcp
    }

    fn name() -> (name: &'static str) {
        Transport::UnicastTcp.name()
    }

    fn send(addr: &str, msg: &str) -> (script: Script) {
        Script::sender(Transport::UnicastTcp, addr, msg)
    }
}

/// The operations that set up a listening socket: bound to the target, with
/// accepts that do not wait.
pub open spec fn listen_ops() -> Seq<SocketOp> {
    seq![SocketOp::Listen, SocketOp::Nonblocking]
}

/// What a TCP receiver for `target` is when constructed.
pub open spec fn listening(target: Seq<char>) -> ReceiverView {
    ReceiverView {
        state: State::initial(),
        setup: ScriptView::fresh(listen_ops(), target, Seq::empty()),
        greeting: EffectView::Nothing,
    }
}

/// The one line that serving an accepted connection produces: the message
/// with its origin where the read returned bytes, a notice of an empty
/// receive where the read would block, and the failure otherwise.
pub open spec fn served(origin: Seq<char>, read: ReadView) -> LogLineView {
    match read {
        ReadView::Data(payload) => line::received(origin, text::printable(payload)),
        ReadView::Failed(failure) => if failure.cause == Cause::WouldBlock {
            line::read_empty(origin)
        } else {
            line::read_failed(failure.text)
        },
    }
}

/// Accepts connections on one address and has each served by a unit of
/// concurrency of its own, which reads once and logs once.
#[derive(Debug)]
pub struct TCPReceiver {
    target: String,
    life: Lifecycle,
}

impl TCPReceiver {
    /// A receiver that will listen on `addr`, not yet bound.
    pub fn new(addr: &str) -> (receiver: TCPReceiver)
        ensures
            receiver.model() == listening(addr@),
    {
        TCPReceiver { target: String::from_str(addr), life: Lifecycle::new() }
    }

    /// Serves one accepted connection: says what to log about the single
    /// read made on it. `origin` is the peer's address. Whatever the read
    /// came to, this affects neither the accept loop nor any other
    /// connection.
    pub fn serve(origin: &str, read: Read) -> (line: LogLine)
        ensures
            line@ == served(origin@, read@),
    {
        match read {
            Read::Data(payload) => {
                let text = text::decode(payload.as_slice());
                LogLine::received(origin, text.as_str())
            },
            Read::Failed(failure) => match failure.cause {
                Cause::WouldBlock => LogLine::read_empty(origin),
                _ => LogLine::read_failed(failure.text.as_str()),
            },
        }
    }
}

impl NetReceiver for TCPReceiver {
    open spec fn transport() -> Transport {
        Transport::UnicastTcp
    }

    closed spec fn model(&self) -> ReceiverView {
        ReceiverView { state: self.life@, ..listening(self.target@) }
    }

    fn name() -> (name: &'static str) {
        Transport::UnicastTcp.name()
    }

    fn plan(&self) -> (script: Script) {
        let mut ops: Vec<SocketOp> = Vec::new();
        ops.push(SocketOp::Listen);
        ops.push(SocketOp::Nonblocking);
        assert(ops@ =~= listen_ops());
        Script::new(ops, self.target.clone(), Vec::new())
    }

    fn bind(&mut self, local: String) -> (effect: Effect) {
        self.life.bind(local);
        Effect::Nothing
    }

    fn addr(&self) -> (addr: Option<String>) {
        self.life.addr()
    }

    fn run(&mut self) -> (effect: Effect) {
        self.life.run(Transport::UnicastTcp)
    }

    fn next(&self) -> (command: Command) {
        self.life.next(Transport::UnicastTcp)
    }

    fn receive(&mut self, event: Event) -> (effect: Effect) {
        self.life.receive(Transport::UnicastTcp, event)
    }
}

/// Sends one datagram to one address.
pub struct UDPSender;

impl NetSender for UDPSender {
    open spec fn transport() -> Transport {
        Transport::UnicastUdp
    }

    fn name() -> (name: &'static str) {
        Transport::UnicastUdp.name()
    }

    fn send(addr: &str, msg: &str) -> (script: Script) {
        Script::sender(Transport::UnicastUdp, addr, msg)
    }
}

/// The operations that set up a unicast datagram socket: bound to the target
/// itself, with receives that give up after the waiting budget.
pub open spec fn bind_ops() -> Seq<SocketOp> {
    seq![SocketOp::BindTarget, SocketOp::ReadTimeout { millis: WAIT_MILLIS }]
}

/// What a UDP receiver for `target` is when constructed.
pub open spec fn binding(target: Seq<char>) -> ReceiverView {
    ReceiverView {
        state: State::initial(),
        setup: ScriptView::fresh(bind_ops(), target, Seq::empty()),
        greeting: EffectView::Nothing,
    }
}

/// Receives the datagrams sent to one address.
#[derive(Debug)]
pub struct UDPReceiver {
    target: String,
    life: Lifecycle,
}

impl UDPReceiver {
    /// A receiver that will bind `addr`, not yet bound.
    pub fn new(addr: &str) -> (receiver: UDPReceiver)
        ensures
            receiver.model() == binding(addr@),
    {
        UDPReceiver { target: String::from_str(addr), life: Lifecycle::new() }
    }
}

impl NetReceiver for UDPReceiver {
    open spec fn transport() -> Transport {
        Transport::UnicastUdp
    }

    closed spec fn model(&self) -> ReceiverView {
        ReceiverView { state: self.life@, ..binding(self.target@) }
    }

    fn name() -> (name: &'static str) {
        Transport::UnicastUdp.name()
    }

    fn plan(&self) -> (script: Script) {
        let mut ops: Vec<SocketOp> = Vec::new();
        ops.push(SocketOp::BindTarget);
        ops.push(SocketOp::ReadTimeout { millis: WAIT_MILLIS });
        assert(ops@ =~= bind_ops());
        Script::new(ops, self.target.clone(), Vec::new())
    }

    fn bind(&mut self, local: String) -> (effect: Effect) {
        self.life.bind(local);
        Effect::Nothing
    }

    fn addr(&self) -> (addr: Option<String>) {
        self.life.addr()
    }

    fn run(&mut self) -> (effect: Effect) {
        self.life.run(Transport::UnicastUdp)
    }

    fn next(&self) -> (command: Command) {
        self.life.next(Transport::UnicastUdp)
    }

    fn receive(&mut self, event: Event) -> (effect: Effect) {
        self.life.receive(Transport::UnicastUdp, event)
    }
}

} // verus!
