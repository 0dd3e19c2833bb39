//! Subnet-wide delivery: one sender, every host on the local subnet.

use crate::event::Event;
use crate::lifecycle::{Command, Effect, EffectView, Lifecycle, State};
use crate::script::{Script, ScriptView, SocketOp, WAIT_MILLIS};
use crate::transport::Transport;
use crate::{NetReceiver, NetSender, ReceiverView};
use vstd::prelude::*;

verus! {

/// Sends one datagram to a broadcast address, on a socket on which
/// broadcasting was enabled first.
pub struct Sender;

impl NetSender for Sender {
    open spec fn transport() -> Transport {
        Transport::Broadcast
    }

    fn name() -> (name: &'static str) {
        Transport::Broadcast.name()
    }

    fn send(addr: &str, msg: &str) -> (script: Script) {
        Script::sender(Transport::Broadcast, addr, msg)
    }
}

/// The operations that set up a broadcast receiver's socket: bound to `port`
/// on every interface, with receives that give up after the waiting budget.
pub open spec fn bind_ops(port: u16) -> Seq<SocketOp> {
    seq![SocketOp::BindAny { port }, SocketOp::ReadTimeout { millis: WAIT_MILLIS }]
}

/// Receives the datagrams sent to one port, whatever local address they were
/// sent to.
#[derive(Debug)]
pub struct Receiver {
    port: u16,
    life: Lifecycle,
}

impl Receiver {
    /// A receiver for `port`, not yet bound.
    pub fn new(port: u16) -> (receiver: Receiver)
        ensures
            receiver.model() == (ReceiverView {
                state: State::initial(),
                setup: ScriptView::fresh(bind_ops(port), Seq::empty(), Seq::empty()),
                greeting: EffectView::Nothing,
            }),
    {
        Receiver { port, life: Lifecycle::new() }
    }
}

impl NetReceiver for Receiver {
    open spec fn transport() -> Transport {
        Transport::Broadcast
    }

    closed spec fn model(&self) -> ReceiverView {
        ReceiverView {
            state: self.life@,
            setup: ScriptView::fresh(bind_ops(self.port), Seq::empty(), Seq::empty()),
            greeting: EffectView::Nothing,
        }
    }

    fn name() -> (name: &'static str) {
        Transport::Broadcast.name()
    }

    fn plan(&self) -> (script: Script) {
        let mut ops: Vec<SocketOp> = Vec::new();
        ops.push(SocketOp::BindAny { port: self.port });
        ops.push(SocketOp::ReadTimeout { millis: WAIT_MILLIS });
        assert(ops@ =~= bind_ops(self.port));
        Script::new(ops, String::new(), Vec::new())
    }

    fn bind(&mut self, local: String) -> (effect: Effect) {
        self.life.bind(local);
        Effect::Nothing
    }

    fn addr(&self) -> (addr: Option<String>) {
        self.life.addr()
    }

    fn run(&mut self) -> (effect: Effect) {
        self.life.run(Transport::Broadcast)
    }

    fn next(&self) -> (command: Command) {
        self.life.next(Transport::Broadcast)
    }

    fn receive(&mut self, event: Event) -> (effect: Effect) {
        self.life.receive(Transport::Broadcast, event)
    }
}

} // verus!
