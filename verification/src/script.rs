//! Socket operations and the straight-line scripts they are issued in.
//!
//! Constructing a receiver and sending a message are both a fixed sequence of
//! socket operations in which the first failure is fatal. A `Script` holds
//! such a sequence and tracks how far the caller has come with it.

use crate::endpoint::Ipv4;
use crate::transport::Transport;
use vstd::prelude::*;
use vstd::string::*;
use vstd::utf8::*;

verus! {

/// How long a connectionless receive waits before it reports that nothing
/// arrived, and how long the accept loop pauses when no peer is waiting.
pub const WAIT_MILLIS: u64 = 100;

/// One operation on a socket. Operations that say "target" or "payload" refer
/// to the script they stand in.
#[derive(Clone, Copy, Debug, PartialEq, Eq, Structural)]
pub enum SocketOp {
    /// Open a connectionless socket on an ephemeral port of every interface.
    OpenDatagram,
    /// Allow the socket to send to a broadcast address.
    EnableBroadcast,
    /// Send the payload as one datagram to the target.
    SendTo,
    /// Open a connection to the target.
    Connect,
    /// Write the whole payload to the connection.
    WriteAll,
    /// Bind a connectionless socket to `port` on every interface.
    BindAny { port: u16 },
    /// Bind a connectionless socket to the target.
    BindTarget,
    /// Bind a listening socket to the target.
    Listen,
    /// Join the multicast group `group` on every interface.
    JoinGroup { group: Ipv4 },
    /// Make receives give up after `millis` milliseconds.
    ReadTimeout { millis: u64 },
    /// Make accepts return at once when no peer is waiting.
    Nonblocking,
}

/// Where a script stands.
#[derive(Clone, Copy, Debug, PartialEq, Eq, Structural)]
pub enum Progress {
    /// An operation is waiting to be performed.
    Pending,
    /// Every operation succeeded.
    Completed,
    /// An operation failed; nothing further is to be done.
    Aborted,
}

/// The mathematical content of a `Script`.
pub struct ScriptView {
    pub ops: Seq<SocketOp>,
    pub target: Seq<char>,
    pub payload: Seq<u8>,
    /// How many operations have succeeded.
    pub done: nat,
    pub aborted: bool,
}

impl ScriptView {
    /// A script of which nothing has been performed yet.
    pub open spec fn fresh(ops: Seq<SocketOp>, target: Seq<char>, payload: Seq<u8>) -> ScriptView {
        ScriptView { ops, target, payload, done: 0, aborted: false }
    }

    pub open spec fn progress(self) -> Progress {
        if self.aborted {
            Progress::Aborted
        } else if self.done >= self.ops.len() {
            Progress::Completed
        } else {
            Progress::Pending
        }
    }

    /// The operation to perform now, if any.
    pub open spec fn next(self) -> Option<SocketOp> {
        if self.progress() == Progress::Pending {
            Some(self.ops[self.done as int])
        } else {
            None
        }
    }

    /// The script after the pending operation succeeded (`ok`) or failed.
    /// With nothing pending the report changes nothing.
    pub open spec fn record(self, ok: bool) -> ScriptView {
        if self.progress() != Progress::Pending {
            self
        } else if ok {
            ScriptView { done: self.done + 1, ..self }
        } else {
            ScriptView { aborted: true, ..self }
        }
    }

    /// The script after a run of reports, oldest first.
    pub open spec fn replay(self, results: Seq<bool>) -> ScriptView
        decreases results.len(),
    {
        if results.len() == 0 {
            self
        } else {
            self.replay(results.drop_last()).record(results.last())
        }
    }
}

/// Whether every report in a run is a success.
pub open spec fn all_ok(results: Seq<bool>) -> bool {
    forall|i: int| 0 <= i < results.len() ==> results[i]
}

/// The operations that send one message over a transport.
pub open spec fn send_ops(transport: Transport) -> Seq<SocketOp> {
    match transport {
        Transport::Broadcast => seq![
            SocketOp::OpenDatagram,
            SocketOp::EnableBroadcast,
            SocketOp::SendTo,
        ],
        Transport::Multicast => seq![SocketOp::OpenDatagram, SocketOp::SendTo],
        Transport::UnicastUdp => seq![SocketOp::OpenDatagram, SocketOp::SendTo],
        Transport::UnicastTcp => seq![SocketOp::Connect, SocketOp::WriteAll],
    }
}

/// The script that sends `message` to `address` over a transport: the
/// payload is the message's UTF-8 bytes, unframed.
pub open spec fn send_script(
    transport: Transport,
    address: Seq<char>,
    message: Seq<char>,
) -> ScriptView {
    ScriptView::fresh(send_ops(transport), address, encode_utf8(message))
}

/// A sequence of socket operations with a cursor. The caller performs
/// `next()`, reports the outcome with `record`, and repeats until `next()`
/// is `None`.
#[derive(Debug)]
pub struct Script {
    ops: Vec<SocketOp>,
    target: String,
    payload: Vec<u8>,
    done: usize,
    aborted: bool,
}

impl View for Script {
    type V = ScriptView;

    closed spec fn view(&self) -> ScriptView {
        ScriptView {
            ops: self.ops@,
            target: self.target@,
            payload: self.payload@,
            done: self.done as nat,
            aborted: self.aborted,
        }
    }
}

impl Script {
    #[verifier::type_invariant]
    spec fn cursor_in_range(&self) -> bool {
        self.done <= self.ops@.len()
    }

    /// A fresh script over the given operations.
    pub fn new(ops: Vec<SocketOp>, target: String, payload: Vec<u8>) -> (script: Script)
        ensures
            script@ == ScriptView::fresh(ops@, target@, payload@),
    {
        Script { ops, target, payload, done: 0, aborted: false }
    }

    /// The script that sends `message` to `address` over `transport`.
    pub fn sender(transport: Transport, address: &str, message: &str) -> (script: Script)
        ensures
            script@ == send_script(transport, address@, message@),
    {
        let mut ops: Vec<SocketOp> = Vec::new();
        match transport {
            Transport::Broadcast => {
                ops.push(SocketOp::OpenDatagram);
                ops.push(SocketOp::EnableBroadcast);
                ops.push(SocketOp::SendTo);
            },
            Transport::Multicast | Transport::UnicastUdp => {
                ops.push(SocketOp::OpenDatagram);
                ops.push(SocketOp::SendTo);
            },
            Transport::UnicastTcp => {
                ops.push(SocketOp::Connect);
                ops.push(SocketOp::WriteAll);
            },
        }
        assert(ops@ =~= send_ops(transport));
        Script::new(ops, String::from_str(address), message.as_bytes_vec())
    }

    /// The address that `SendTo`, `Connect`, `BindTarget` and `Listen` refer
    /// to.
    pub fn target(&self) -> (target: &str)
        ensures
            target@ == self@.target,
    {
        self.target.as_str()
    }

    /// The bytes that `SendTo` and `WriteAll` refer to.
    pub fn payload(&self) -> (payload: &[u8])
        ensures
            payload@ == self@.payload,
    {
        self.payload.as_slice()
    }

    /// Where the script stands.
    pub fn progress(&self) -> (progress: Progress)
        ensures
            progress == self@.progress(),
    {
        if self.aborted {
            Progress::Aborted
        } else if self.done >= self.ops.len() {
            Progress::Completed
        } else {
            Progress::Pending
        }
    }

    /// The operation to perform now; `None` once the script has completed or
    /// aborted.
    pub fn next(&self) -> (op: Option<SocketOp>)
        ensures
            op == self@.next(),
    {
        if !self.aborted && self.done < self.ops.len() {
            Some(self.ops[self.done])
        } else {
            None
        }
    }

    /// Reports the outcome of the pending operation. A success moves on to
    /// the next operation; a failure aborts the script for good.
    pub fn record(&mut self, ok: bool)
        ensures
            final(self)@ == old(self)@.record(ok),
    {
        if !self.aborted && self.done < self.ops.len() {
            if ok {
                self.done = self.done + 1;
            } else {
                self.aborted = true;
            }
        }
    }
}

/// Once a script has aborted, no report revives it: nothing is ever issued
/// again.
pub proof fn lemma_abort_is_final(script: ScriptView, results: Seq<bool>)
    requires
        script.aborted,
    ensures
        script.replay(results) == script,
        script.replay(results).next() is None,
    decreases results.len(),
{
    if results.len() > 0 {
        lemma_abort_is_final(script, results.drop_last());
    }
}

/// A fresh script issues its operations in order, each only after every
/// earlier one succeeded: after a run of reports it has aborted if any of
/// them was a failure of an operation that was pending, and otherwise stands
/// right behind the operations reported on.
pub proof fn lemma_replay_fresh(
    ops: Seq<SocketOp>,
    target: Seq<char>,
    payload: Seq<u8>,
    results: Seq<bool>,
)
    requires
        results.len() <= ops.len(),
    ensures
        ({
            let end = ScriptView::fresh(ops, target, payload).replay(results);
            &&& end.ops == ops
            &&& end.target == target
            &&& end.payload == payload
            &&& end.aborted == !all_ok(results)
            &&& all_ok(results) ==> end.done == results.len()
            &&& end.next() == if all_ok(results) && results.len() < ops.len() {
                Some(ops[results.len() as int])
            } else {
                None
            }
            &&& end.progress() == if !all_ok(results) {
                Progress::Aborted
            } else if results.len() == ops.len() {
                Progress::Completed
            } else {
                Progress::Pending
            }
        }),
    decreases results.len(),
{
    if results.len() > 0 {
        let before = results.drop_last();
        lemma_replay_fresh(ops, target, payload, before);
        if all_ok(before) {
            if results.last() {
                assert forall|i: int| 0 <= i < results.len() implies results[i] by {
                    if i < before.len() {
                        assert(before[i]);
                    }
                }
            } else {
                assert(!results[results.len() - 1]);
            }
        } else {
            let i = choose|i: int| 0 <= i < before.len() && !before[i];
            assert(!results[i]);
        }
    }
}

/// Reports made after a fresh script's last operation change nothing.
pub proof fn lemma_replay_past_end(
    ops: Seq<SocketOp>,
    target: Seq<char>,
    payload: Seq<u8>,
    results: Seq<bool>,
)
    requires
        results.len() >= ops.len(),
    ensures
        ScriptView::fresh(ops, target, payload).replay(results) == ScriptView::fresh(
            ops,
            target,
            payload,
        ).replay(results.take(ops.len() as int)),
    decreases results.len(),
{
    let counted = results.take(ops.len() as int);
    if results.len() == ops.len() {
        assert(counted =~= results);
    } else {
        let before = results.drop_last();
        assert(before.take(ops.len() as int) =~= counted);
        lemma_replay_past_end(ops, target, payload, before);
        lemma_replay_fresh(ops, target, payload, counted);
    }
}

/// A broadcast is only transmitted on a socket on which broadcasting was
/// enabled: the send is issued after exactly two successes, and a failure to
/// enable broadcasting aborts the script with the message unsent.
pub proof fn lemma_broadcast_needs_capability(
    address: Seq<char>,
    message: Seq<char>,
    results: Seq<bool>,
)
    ensures
        ({
            let end = send_script(Transport::Broadcast, address, message).replay(results);
            &&& end.next() == Some(SocketOp::SendTo) <==> results.len() == 2 && results[0]
                && results[1]
            &&& results.len() >= 2 && !results[1] ==> end.progress() == Progress::Aborted
        }),
{
    let ops = send_ops(Transport::Broadcast);
    let counted = if results.len() <= 3 {
        results
    } else {
        results.take(3)
    };
    if results.len() > 3 {
        lemma_replay_past_end(ops, address, encode_utf8(message), results);
    }
    lemma_replay_fresh(ops, address, encode_utf8(message), counted);
    if results.len() == 2 && results[0] && results[1] {
        assert(all_ok(results));
    }
    if results.len() >= 2 && !results[1] {
        assert(!counted[1]);
    }
}

} // verus!
