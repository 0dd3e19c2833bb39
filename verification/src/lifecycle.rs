//! The life of a receiver: unbound, bound, running until cancelled.
//!
//! A receiver never touches a socket itself. It tells its caller what to do
//! next (`Command`), is told what came of it (`Event`), and answers with what
//! the caller is to do about it (`Effect`). A running receiver alternates
//! between polling the cancellation signal and waiting on its socket, and the
//! only way out of that alternation is a poll that finds the signal raised.

use crate::event::{Accept, AcceptView, Arrival, ArrivalView, Cause, Event, EventView};
use crate::line;
use crate::line::{LogLine, LogLineView};
use crate::script::WAIT_MILLIS;
use crate::text;
use crate::transport::Transport;
use vstd::prelude::*;

verus! {

/// Where a receiver stands in its life.
#[derive(Clone, Copy, Debug, PartialEq, Eq, Structural)]
pub enum Phase {
    /// Constructed; its socket is not known to be set up yet.
    Unbound,
    /// Its socket is bound (and, for multicast, joined).
    Bound,
    /// Running, about to poll the cancellation signal.
    Polling,
    /// Running, about to wait on its socket.
    Listening,
    /// Cancellation was observed. Terminal.
    Cancelled,
}

/// The outside work a receiver asks for next.
#[derive(Clone, Copy, Debug, PartialEq, Eq, Structural)]
pub enum Command {
    /// Perform the construction script, then report the socket's local
    /// address with `bind`.
    Establish,
    /// Call `run`.
    Start,
    /// Poll the cancellation signal without waiting and report
    /// `Event::Signal`.
    Poll,
    /// Receive one datagram into a buffer of `CAPACITY` bytes and report
    /// `Event::Arrival`.
    Receive,
    /// Try to accept one connection and report `Event::Accept`.
    Accept,
    /// Leave the loop.
    Stop,
}

/// What the caller is to do in answer to a report.
#[derive(Debug)]
pub enum Effect {
    Nothing,
    /// Write the line.
    Log(LogLine),
    /// Hand the connection just accepted to a new unit of concurrency that
    /// reads from it once.
    Spawn,
    /// Sleep for `millis` milliseconds.
    Pause { millis: u64 },
    /// Wait for every unit spawned so far to finish, and drop a connection
    /// that was accepted but not handed on.
    Join,
}

pub enum EffectView {
    Nothing,
    Log(LogLineView),
    Spawn,
    Pause { millis: u64 },
    Join,
}

impl View for Effect {
    type V = EffectView;

    open spec fn view(&self) -> EffectView {
        match self {
            Effect::Nothing => EffectView::Nothing,
            Effect::Log(line) => EffectView::Log(line@),
            Effect::Spawn => EffectView::Spawn,
            Effect::Pause { millis } => EffectView::Pause { millis: *millis },
            Effect::Join => EffectView::Join,
        }
    }
}

/// The mathematical state of a receiver.
pub struct State {
    pub phase: Phase,
    /// The socket's resolved local address, once bound.
    pub local: Seq<char>,
    /// On a listening socket: the outcome of the last accept, held while the
    /// cancellation signal is polled.
    pub pending: Option<AcceptView>,
}

impl State {
    /// A receiver right after construction.
    pub open spec fn initial() -> State {
        State { phase: Phase::Unbound, local: Seq::empty(), pending: None }
    }

    /// Whether the receive loop is under way.
    pub open spec fn running(self) -> bool {
        self.phase == Phase::Polling || self.phase == Phase::Listening
    }

    /// The state after the socket was set up and reported `local` as its
    /// address. Only an unbound receiver takes the report.
    pub open spec fn bind(self, local: Seq<char>) -> State {
        if self.phase == Phase::Unbound {
            State { phase: Phase::Bound, local, pending: None }
        } else {
            self
        }
    }

    /// The state after the loop was started. A connectionless receiver polls
    /// the signal first; a listening one accepts first and polls before it
    /// deals with what it accepted.
    pub open spec fn start(self, transport: Transport) -> State {
        if self.phase == Phase::Bound {
            State {
                phase: if transport.connected() {
                    Phase::Listening
                } else {
                    Phase::Polling
                },
                ..self
            }
        } else {
            self
        }
    }

    /// What starting the loop logs: the announcement, once.
    pub open spec fn announce(self, transport: Transport) -> EffectView {
        if self.phase == Phase::Bound {
            EffectView::Log(line::receiver_started(transport.label(), self.local))
        } else {
            EffectView::Nothing
        }
    }

    /// The outside work to do next.
    pub open spec fn command(self, transport: Transport) -> Command {
        match self.phase {
            Phase::Unbound => Command::Establish,
            Phase::Bound => Command::Start,
            Phase::Polling => Command::Poll,
            Phase::Listening => if transport.connected() {
                Command::Accept
            } else {
                Command::Receive
            },
            Phase::Cancelled => Command::Stop,
        }
    }

    /// Whether `event` reports on the work that `command` asks for.
    pub open spec fn expects(self, transport: Transport, event: EventView) -> bool {
        match self.command(transport) {
            Command::Poll => event is Signal,
            Command::Receive => event is Arrival,
            Command::Accept => event is Accept,
            _ => false,
        }
    }

    /// The state after a report. A report on work that was not asked for
    /// changes nothing.
    pub open spec fn step(self, transport: Transport, event: EventView) -> State {
        if !self.expects(transport, event) {
            self
        } else {
            match event {
                EventView::Signal { fired } => State {
                    phase: if fired {
                        Phase::Cancelled
                    } else {
                        Phase::Listening
                    },
                    pending: None,
                    ..self
                },
                EventView::Arrival(_) => State { phase: Phase::Polling, ..self },
                EventView::Accept(accept) => State {
                    phase: Phase::Polling,
                    pending: Some(accept),
                    ..self
                },
            }
        }
    }

    /// What the caller is to do about a report.
    pub open spec fn react(self, transport: Transport, event: EventView) -> EffectView {
        if !self.expects(transport, event) {
            EffectView::Nothing
        } else {
            match event {
                EventView::Signal { fired } => if !transport.connected() {
                    EffectView::Nothing
                } else if fired {
                    EffectView::Join
                } else {
                    settle(self.pending)
                },
                EventView::Arrival(arrival) => deliver(arrival),
                EventView::Accept(_) => EffectView::Nothing,
            }
        }
    }

    /// The state after a run of reports, oldest first.
    pub open spec fn run(self, transport: Transport, events: Seq<EventView>) -> State
        decreases events.len(),
    {
        if events.len() == 0 {
            self
        } else {
            self.run(transport, events.drop_last()).step(transport, events.last())
        }
    }

    /// Whether, in a run of reports, report `i` is a poll that found the
    /// signal raised, made when the receiver was polling.
    pub open spec fn cancels_at(
        self,
        transport: Transport,
        events: Seq<EventView>,
        i: int,
    ) -> bool {
        &&& 0 <= i < events.len()
        &&& events[i] == (EventView::Signal { fired: true })
        &&& self.run(transport, events.take(i)).phase == Phase::Polling
    }

    /// Whether an accepted connection is in hand, waiting for the poll.
    pub open spec fn holds_connection(self) -> bool {
        self.pending == Some(AcceptView::Connection)
    }

    /// An accept outcome is only ever in hand on a listening receiver that
    /// is about to poll.
    pub open spec fn coherent(self, transport: Transport) -> bool {
        self.pending is Some ==> transport.connected() && self.phase == Phase::Polling
    }

    /// How many connections a run of reports handed to the receiver.
    pub open spec fn accepted(self, transport: Transport, events: Seq<EventView>) -> nat
        decreases events.len(),
    {
        if events.len() == 0 {
            0
        } else {
            let prev = self.run(transport, events.drop_last());
            let taken = prev.expects(transport, events.last()) && events.last()
                == EventView::Accept(AcceptView::Connection);
            self.accepted(transport, events.drop_last()) + if taken {
                1nat
            } else {
                0nat
            }
        }
    }

    /// How many times a run of reports had the receiver ask for a spawn.
    pub open spec fn spawned(self, transport: Transport, events: Seq<EventView>) -> nat
        decreases events.len(),
    {
        if events.len() == 0 {
            0
        } else {
            let prev = self.run(transport, events.drop_last());
            self.spawned(transport, events.drop_last()) + if prev.react(transport, events.last())
                == EffectView::Spawn {
                1nat
            } else {
                0nat
            }
        }
    }

    /// How many connections a run of reports had the receiver let go of
    /// unserved, because it found the signal raised while holding them.
    pub open spec fn dropped(self, transport: Transport, events: Seq<EventView>) -> nat
        decreases events.len(),
    {
        if events.len() == 0 {
            0
        } else {
            let prev = self.run(transport, events.drop_last());
            let lost = prev.expects(transport, events.last()) && prev.holds_connection()
                && events.last() == (EventView::Signal { fired: true });
            self.dropped(transport, events.drop_last()) + if lost {
                1nat
            } else {
                0nat
            }
        }
    }
}

/// What a connectionless receiver does about the outcome of a receive: a
/// datagram is logged with its origin; a timeout is passed over in silence;
/// any other failure is logged. None of them ends the loop.
pub open spec fn deliver(arrival: ArrivalView) -> EffectView {
    match arrival {
        ArrivalView::Datagram { payload, origin } => EffectView::Log(
            line::received(origin, text::printable(payload)),
        ),
        ArrivalView::Failed(failure) => if failure.cause == Cause::WouldBlock || failure.cause
            == Cause::TimedOut {
            EffectView::Nothing
        } else {
            EffectView::Log(line::receive_failed(failure.text))
        },
    }
}

/// What a listening receiver does about the outcome of an accept, once it
/// has found the cancellation signal not raised: a connection gets a unit of
/// concurrency of its own; with no peer waiting the loop backs off; any other
/// failure is logged.
pub open spec fn settle(pending: Option<AcceptView>) -> EffectView {
    match pending {
        Some(AcceptView::Connection) => EffectView::Spawn,
        Some(AcceptView::Failed(failure)) => if failure.cause == Cause::WouldBlock {
            EffectView::Pause { millis: WAIT_MILLIS }
        } else {
            EffectView::Log(line::accept_failed(failure.text))
        },
        None => EffectView::Nothing,
    }
}

/// The record a receiver keeps of its own life.
#[derive(Debug)]
pub struct Lifecycle {
    phase: Phase,
    local: String,
    pending: Option<Accept>,
}

impl View for Lifecycle {
    type V = State;

    closed spec fn view(&self) -> State {
        State {
            phase: self.phase,
            local: self.local@,
            pending: match self.pending {
                Some(accept) => Some(accept@),
                None => None,
            },
        }
    }
}

impl Lifecycle {
    /// The record of a receiver just constructed.
    pub fn new() -> (life: Lifecycle)
        ensures
            life@ == State::initial(),
    {
        Lifecycle { phase: Phase::Unbound, local: String::new(), pending: None }
    }

    pub fn phase(&self) -> (phase: Phase)
        ensures
            phase == self@.phase,
    {
        self.phase
    }

    /// The socket's local address; `None` while unbound.
    pub fn addr(&self) -> (addr: Option<String>)
        ensures
            addr is Some <==> self@.phase != Phase::Unbound,
            addr is Some ==> addr->0@ == self@.local,
    {
        match self.phase {
            Phase::Unbound => None,
            _ => Some(self.local.clone()),
        }
    }

    /// Takes the report that the socket is set up, with its local address.
    pub fn bind(&mut self, local: String)
        ensures
            final(self)@ == old(self)@.bind(local@),
    {
        match self.phase {
            Phase::Unbound => {
                self.phase = Phase::Bound;
                self.local = local;
                self.pending = None;
            },
            _ => {},
        }
    }

    /// Starts the loop and hands back the announcement to log.
    pub fn run(&mut self, transport: Transport) -> (effect: Effect)
        ensures
            final(self)@ == old(self)@.start(transport),
            effect@ == old(self)@.announce(transport),
    {
        match self.phase {
            Phase::Bound => {
                self.phase = match transport {
                    Transport::UnicastTcp => Phase::Listening,
                    _ => Phase::Polling,
                };
                Effect::Log(LogLine::receiver_started(transport.name(), self.local.as_str()))
            },
            _ => Effect::Nothing,
        }
    }

    /// The outside work to do next.
    pub fn next(&self, transport: Transport) -> (command: Command)
        ensures
            command == self@.command(transport),
    {
        match self.phase {
            Phase::Unbound => Command::Establish,
            Phase::Bound => Command::Start,
            Phase::Polling => Command::Poll,
            Phase::Listening => match transport {
                Transport::UnicastTcp => Command::Accept,
                _ => Command::Receive,
            },
            Phase::Cancelled => Command::Stop,
        }
    }

    /// Takes a report and says what to do about it.
    pub fn receive(&mut self, transport: Transport, event: Event) -> (effect: Effect)
        ensures
            final(self)@ == old(self)@.step(transport, event@),
            effect@ == old(self)@.react(transport, event@),
    {
        let command = self.next(transport);
        match event {
            Event::Signal { fired } => {
                if command != Command::Poll {
                    return Effect::Nothing;
                }
                let pending = self.pending.take();
                self.phase = if fired {
                    Phase::Cancelled
                } else {
                    Phase::Listening
                };
                match transport {
                    Transport::UnicastTcp => if fired {
                        Effect::Join
                    } else {
                        settle_accept(pending)
                    },
                    _ => Effect::Nothing,
                }
            },
            Event::Arrival(arrival) => {
                if command != Command::Receive {
                    return Effect::Nothing;
                }
                self.phase = Phase::Polling;
                deliver_arrival(arrival)
            },
            Event::Accept(accept) => {
                if command != Command::Accept {
                    return Effect::Nothing;
                }
                self.phase = Phase::Polling;
                self.pending = Some(accept);
                Effect::Nothing
            },
        }
    }
}

/// Says what to do about the outcome of a receive on a connectionless socket.
pub fn deliver_arrival(arrival: Arrival) -> (effect: Effect)
    ensures
        effect@ == deliver(arrival@),
{
    match arrival {
        Arrival::Datagram { payload, origin } => {
            let text = text::decode(payload.as_slice());
            Effect::Log(LogLine::received(origin.as_str(), text.as_str()))
        },
        Arrival::Failed(failure) => match failure.cause {
            Cause::WouldBlock | Cause::TimedOut => Effect::Nothing,
            Cause::Other => Effect::Log(LogLine::receive_failed(failure.text.as_str())),
        },
    }
}

/// Says what to do about the outcome of an accept when the loop goes on.
pub fn settle_accept(pending: Option<Accept>) -> (effect: Effect)
    ensures
        effect@ == settle(
            match pending {
                Some(accept) => Some(accept@),
                None => None,
            },
        ),
{
    match pending {
        Some(Accept::Connection) => Effect::Spawn,
        Some(Accept::Failed(failure)) => match failure.cause {
            Cause::WouldBlock => Effect::Pause { millis: WAIT_MILLIS },
            _ => Effect::Log(LogLine::accept_failed(failure.text.as_str())),
        },
        None => Effect::Nothing,
    }
}

/// A receiver that has not been cancelled is cancelled by a report if and
/// only if it was polling and the report says the signal was raised. No
/// arrival, timeout or failure ends the loop.
pub proof fn lemma_only_raised_signal_cancels(state: State, transport: Transport, event: EventView)
    requires
        state.phase != Phase::Cancelled,
    ensures
        state.step(transport, event).phase == Phase::Cancelled <==> state.phase == Phase::Polling
            && event == (EventView::Signal { fired: true }),
{
}

/// A cancelled receiver stays cancelled, asks only to stop, and has nothing
/// more done.
pub proof fn lemma_cancelled_is_terminal(state: State, transport: Transport, event: EventView)
    requires
        state.phase == Phase::Cancelled,
    ensures
        state.command(transport) == Command::Stop,
        state.step(transport, event) == state,
        state.react(transport, event) == EffectView::Nothing,
{
}

/// A running receiver polls the signal once per iteration: whatever its
/// socket reports takes it back to polling, and a poll that finds the signal
/// not raised takes it to its socket again.
pub proof fn lemma_polls_between_waits(state: State, transport: Transport, event: EventView)
    requires
        state.running(),
        state.expects(transport, event),
    ensures
        state.phase == Phase::Listening ==> state.step(transport, event).phase == Phase::Polling,
        state.phase == Phase::Polling && event == (EventView::Signal { fired: false })
            ==> state.step(transport, event).phase == Phase::Listening,
        state.step(transport, event).local == state.local,
{
}

/// Cancellation is honoured within one iteration: if from now on every poll
/// finds the signal raised, a running receiver is cancelled after at most one
/// more wait on its socket.
pub proof fn lemma_cancels_within_one_iteration(
    state: State,
    transport: Transport,
    first: EventView,
    second: EventView,
)
    requires
        state.running(),
        state.expects(transport, first),
        state.step(transport, first).running() ==> state.step(transport, first).expects(
            transport,
            second,
        ),
        first is Signal ==> first == (EventView::Signal { fired: true }),
        second is Signal ==> second == (EventView::Signal { fired: true }),
    ensures
        state.step(transport, first).phase == Phase::Cancelled || state.step(
            transport,
            first,
        ).step(transport, second).phase == Phase::Cancelled,
{
}

/// Over any run of reports, a receiver ends up cancelled if and only if at
/// some point of the run it was polling and was told that the signal had been
/// raised.
pub proof fn lemma_run_cancelled_iff_signal_seen(
    state: State,
    transport: Transport,
    events: Seq<EventView>,
)
    requires
        state.phase != Phase::Cancelled,
    ensures
        state.run(transport, events).phase == Phase::Cancelled <==> exists|i: int|
            state.cancels_at(transport, events, i),
    decreases events.len(),
{
    if events.len() > 0 {
        let before = events.drop_last();
        let last = events.len() - 1;
        let prev = state.run(transport, before);
        lemma_run_cancelled_iff_signal_seen(state, transport, before);
        assert(events.take(last) =~= before);
        if state.run(transport, events).phase == Phase::Cancelled {
            if prev.phase == Phase::Cancelled {
                let i = choose|i: int| state.cancels_at(transport, before, i);
                assert(events.take(i) =~= before.take(i));
                assert(state.cancels_at(transport, events, i));
            } else {
                assert(state.cancels_at(transport, events, last));
            }
        } else {
            assert forall|i: int| !state.cancels_at(transport, events, i) by {
                if state.cancels_at(transport, events, i) && i < last {
                    assert(events.take(i) =~= before.take(i));
                    assert(state.cancels_at(transport, before, i));
                }
            }
        }
    }
}

/// A connection is handed to a unit of concurrency exactly when a listening
/// receiver that holds a freshly accepted connection finds the signal not
/// raised; handing it on clears it, so no connection is handed on twice.
pub proof fn lemma_spawn_once_per_connection(state: State, transport: Transport, event: EventView)
    ensures
        state.react(transport, event) == EffectView::Spawn <==> transport.connected()
            && state.phase == Phase::Polling && state.pending == Some(AcceptView::Connection)
            && event == (EventView::Signal { fired: false }),
        state.react(transport, event) == EffectView::Spawn ==> state.step(
            transport,
            event,
        ).pending is None,
{
}

/// On a listening receiver in its loop, every accepted connection is either
/// handed on (signal not raised) or the loop ends and everything spawned is
/// waited for (signal raised).
pub proof fn lemma_accepted_connection_is_served(state: State, fired: bool)
    requires
        state.phase == Phase::Listening,
    ensures
        ({
            let held = state.step(
                Transport::UnicastTcp,
                EventView::Accept(AcceptView::Connection),
            );
            let effect = held.react(Transport::UnicastTcp, EventView::Signal { fired });
            let after = held.step(Transport::UnicastTcp, EventView::Signal { fired });
            &&& held.phase == Phase::Polling
            &&& !fired ==> effect == EffectView::Spawn && after.phase == Phase::Listening
            &&& fired ==> effect == EffectView::Join && after.phase == Phase::Cancelled
        }),
{
}

/// Every connection handed to a receiver is spawned for exactly once, with
/// two exceptions of at most one connection each: the one still in hand at
/// the end of the run, and the one in hand when the signal was found raised.
/// Until cancellation nothing is dropped.
pub proof fn lemma_connections_accounted_for(
    state: State,
    transport: Transport,
    events: Seq<EventView>,
)
    requires
        state.coherent(transport),
        state.phase != Phase::Cancelled,
    ensures
        ({
            let end = state.run(transport, events);
            let before = if state.holds_connection() {
                1nat
            } else {
                0nat
            };
            let held = if end.holds_connection() {
                1nat
            } else {
                0nat
            };
            &&& end.coherent(transport)
            &&& before + state.accepted(transport, events) == state.spawned(transport, events)
                + state.dropped(transport, events) + held
            &&& state.dropped(transport, events) <= 1
            &&& end.phase != Phase::Cancelled ==> state.dropped(transport, events) == 0
        }),
    decreases events.len(),
{
    if events.len() > 0 {
        lemma_connections_accounted_for(state, transport, events.drop_last());
    }
}

} // verus!
