//! The lines a sender or receiver writes to the console.

use vstd::prelude::*;
use vstd::string::*;

verus! {

/// Which console stream a line goes to.
#[derive(Clone, Copy, Debug, PartialEq, Eq, Structural)]
pub enum Stream {
    /// Standard output: announcements and received messages.
    Output,
    /// Standard error: failures that do not stop a receiver.
    Error,
}

/// One line of console output, without its line terminator.
#[derive(Debug)]
pub struct LogLine {
    pub stream: Stream,
    pub text: String,
}

/// The mathematical content of a `LogLine`.
pub struct LogLineView {
    pub stream: Stream,
    pub text: Seq<char>,
}

impl View for LogLine {
    type V = LogLineView;

    open spec fn view(&self) -> LogLineView {
        LogLineView { stream: self.stream, text: self.text@ }
    }
}

pub open spec fn sender_started(name: Seq<char>) -> LogLineView {
    LogLineView { stream: Stream::Output, text: name + " sender started"@ }
}

pub open spec fn receiver_started(name: Seq<char>, local: Seq<char>) -> LogLineView {
    LogLineView { stream: Stream::Output, text: name + " receiver started on "@ + local }
}

pub open spec fn group_address(group: Seq<char>) -> LogLineView {
    LogLineView { stream: Stream::Output, text: "Multicast group address: "@ + group }
}

pub open spec fn received(origin: Seq<char>, text: Seq<char>) -> LogLineView {
    LogLineView { stream: Stream::Output, text: "Receive message from "@ + origin + ": "@ + text }
}

pub open spec fn stopping() -> LogLineView {
    LogLineView { stream: Stream::Output, text: "stopping"@ }
}

pub open spec fn receive_failed(error: Seq<char>) -> LogLineView {
    LogLineView { stream: Stream::Error, text: "Failed to receive data: "@ + error }
}

pub open spec fn read_empty(origin: Seq<char>) -> LogLineView {
    LogLineView { stream: Stream::Error, text: "Receive empty from "@ + origin }
}

pub open spec fn read_failed(error: Seq<char>) -> LogLineView {
    LogLineView { stream: Stream::Error, text: "Failed to read from connection: "@ + error }
}

pub open spec fn accept_failed(error: Seq<char>) -> LogLineView {
    LogLineView { stream: Stream::Error, text: "Failed to accept connection: "@ + error }
}

pub open spec fn join_failed(error: Seq<char>) -> LogLineView {
    LogLineView { stream: Stream::Error, text: "Failed to join thread: "@ + error }
}

impl LogLine {
    /// The line `<name> sender started`.
    pub fn sender_started(name: &str) -> (line: LogLine)
        ensures
            line@ == sender_started(name@),
    {
        let text = String::from_str(name).concat(" sender started");
        LogLine { stream: Stream::Output, text }
    }

    /// The line `<name> receiver started on <local>`.
    pub fn receiver_started(name: &str, local: &str) -> (line: LogLine)
        ensures
            line@ == receiver_started(name@, local@),
    {
        let text = String::from_str(name).concat(" receiver started on ").concat(local);
        LogLine { stream: Stream::Output, text }
    }

    /// The line `Multicast group address: <group>`.
    pub fn group_address(group: &str) -> (line: LogLine)
        ensures
            line@ == group_address(group@),
    {
        let text = String::from_str("Multicast group address: ").concat(group);
        LogLine { stream: Stream::Output, text }
    }

    /// The line `Receive message from <origin>: <text>`.
    pub fn received(origin: &str, text: &str) -> (line: LogLine)
        ensures
            line@ == received(origin@, text@),
    {
        let text = String::from_str("Receive message from ").concat(origin).concat(": ").concat(
            text,
        );
        LogLine { stream: Stream::Output, text }
    }

    /// The line `stopping`, written when the interrupt arrives.
    pub fn stopping() -> (line: LogLine)
        ensures
            line@ == stopping(),
    {
        LogLine { stream: Stream::Output, text: String::from_str("stopping") }
    }

    /// The line `Failed to receive data: <error>`.
    pub fn receive_failed(error: &str) -> (line: LogLine)
        ensures
            line@ == receive_failed(error@),
    {
        let text = String::from_str("Failed to receive data: ").concat(error);
        LogLine { stream: Stream::Error, text }
    }

    /// The line `Receive empty from <origin>`.
    pub fn read_empty(origin: &str) -> (line: LogLine)
        ensures
            line@ == read_empty(origin@),
    {
        let text = String::from_str("Receive empty from ").concat(origin);
        LogLine { stream: Stream::Error, text }
    }

    /// The line `Failed to read from connection: <error>`.
    pub fn read_failed(error: &str) -> (line: LogLine)
        ensures
            line@ == read_failed(error@),
    {
        let text = String::from_str("Failed to read from connection: ").concat(error);
        LogLine { stream: Stream::Error, text }
    }

    /// The line `Failed to accept connection: <error>`.
    pub fn accept_failed(error: &str) -> (line: LogLine)
        ensures
            line@ == accept_failed(error@),
    {
        let text = String::from_str("Failed to accept connection: ").concat(error);
        LogLine { stream: Stream::Error, text }
    }

    /// The line `Failed to join thread: <error>`.
    pub fn join_failed(error: &str) -> (line: LogLine)
        ensures
            line@ == join_failed(error@),
    {
        let text = String::from_str("Failed to join thread: ").concat(error);
        LogLine { stream: Stream::Error, text }
    }
}

} // verus!
