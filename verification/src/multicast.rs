//! Group delivery: one sender, every receiver that joined the group.

use crate::endpoint::{Endpoint, IpAddress, Ipv4};
use crate::event::Event;
use crate::lifecycle::{Command, Effect, EffectView, Lifecycle, State};
use crate::line;
use crate::line::LogLine;
use crate::script::{Script, ScriptView, SocketOp, WAIT_MILLIS};
use crate::transport::Transport;
use crate::{NetReceiver, NetSender, ReceiverView};
use vstd::prelude::*;

verus! {

/// Sends one datagram to a group address. Sending needs no membership.
pub struct Sender;

impl NetSender for Sender {
    open spec fn transport() -> Transport {
        Transport::Multicast
    }

    fn name() -> (name: &'static str) {
        Transport::Multicast.name()
    }

    fn send(addr: &str, msg: &str) -> (script: Script) {
        Script::sender(Transport::Multicast, addr, msg)
    }
}

/// Why a multicast receiver cannot be constructed.
#[derive(Clone, Copy, Debug, PartialEq, Eq, Structural)]
pub enum GroupError {
    /// The group address is not an IPv4 address.
    Ipv4Only,
}

impl GroupError {
    /// The message the failure is reported with.
    pub fn message(&self) -> (text: &'static str)
        ensures
            text@ == "IPv4 only"@,
    {
        "IPv4 only"
    }
}

/// The operations that set up a multicast receiver's socket: bound to the
/// group's port on every interface, joined to the group on every interface,
/// with receives that give up after the waiting budget.
pub open spec fn join_ops(group: Ipv4, port: u16) -> Seq<SocketOp> {
    seq![
        SocketOp::BindAny { port },
        SocketOp::JoinGroup { group },
        SocketOp::ReadTimeout { millis: WAIT_MILLIS },
    ]
}

/// What a multicast receiver for `group` and `port` is when constructed.
pub open spec fn joining(group: Ipv4, port: u16) -> ReceiverView {
    ReceiverView {
        state: State::initial(),
        setup: ScriptView::fresh(join_ops(group, port), Seq::empty(), Seq::empty()),
        greeting: EffectView::Log(line::group_address(group.text())),
    }
}

/// Receives the datagrams sent to one IPv4 multicast group. Membership lasts
/// as long as the socket.
#[derive(Debug)]
pub struct Receiver {
    group: Ipv4,
    port: u16,
    life: Lifecycle,
}

impl Receiver {
    /// A receiver for the group and port that `target` names, not yet bound.
    /// Only IPv4 groups can be joined: any other address is refused, before
    /// any socket operation is asked for.
    pub fn new(target: Endpoint) -> (made: Result<Receiver, GroupError>)
        ensures
            match target.ip {
                IpAddress::V4(group) => made is Ok && made->Ok_0.model() == joining(
                    group,
                    target.port,
                ),
                IpAddress::V6(_) => made == Err::<Receiver, GroupError>(GroupError::Ipv4Only),
            },
    {
        match target.ip {
            IpAddress::V4(group) => Ok(Receiver { group, port: target.port, life: Lifecycle::new() }),
            IpAddress::V6(_) => Err(GroupError::Ipv4Only),
        }
    }
}

impl NetReceiver for Receiver {
    open spec fn transport() -> Transport {
        Transport::Multicast
    }

    closed spec fn model(&self) -> ReceiverView {
        ReceiverView { state: self.life@, ..joining(self.group, self.port) }
    }

    fn name() -> (name: &'static str) {
        Transport::Multicast.name()
    }

    fn plan(&self) -> (script: Script) {
        let mut ops: Vec<SocketOp> = Vec::new();
        ops.push(SocketOp::BindAny { port: self.port });
        ops.push(SocketOp::JoinGroup { group: self.group });
        ops.push(SocketOp::ReadTimeout { millis: WAIT_MILLIS });
        assert(ops@ =~= join_ops(self.group, self.port));
        Script::new(ops, String::new(), Vec::new())
    }

    fn bind(&mut self, local: String) -> (effect: Effect) {
        let unbound = self.life.next(Transport::Multicast) == Command::Establish;
        self.life.bind(local);
        if unbound {
            Effect::Log(LogLine::group_address(self.group.to_text().as_str()))
        } else {
            Effect::Nothing
        }
    }

    fn addr(&self) -> (addr: Option<String>) {
        self.life.addr()
    }

    fn run(&mut self) -> (effect: Effect) {
        self.life.run(Transport::Multicast)
    }

    fn next(&self) -> (command: Command) {
        self.life.next(Transport::Multicast)
    }

    fn receive(&mut self, event: Event) -> (effect: Effect) {
        self.life.receive(Transport::Multicast, event)
    }
}

} // verus!
