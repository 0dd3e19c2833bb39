use netools::broadcast;
use netools::endpoint::{Endpoint, IpAddress, Ipv4};
use netools::event::{Accept, Arrival, Cause, Event, Fault, Payload, Read};
use netools::lifecycle::{deliver_arrival, settle_accept, Command, Effect, Lifecycle, Phase};
use netools::line::{LogLine, Stream};
use netools::multicast;
use netools::multicast::GroupError;
use netools::script::{Progress, Script, SocketOp};
use netools::transport::Transport;
use netools::unicast::{TCPReceiver, UDPReceiver};
use netools::NetReceiver;

fn issued(script: &mut Script) -> Vec<SocketOp> {
    let mut ops = Vec::new();
    while let Some(op) = script.next() {
        ops.push(op);
        script.record(true);
    }
    ops
}

fn logged(effect: Effect) -> (Stream, String) {
    match effect {
        Effect::Log(LogLine { stream, text }) => (stream, text),
        other => panic!("expected a line, got {:?}", other),
    }
}

fn out(text: &str) -> (Stream, String) {
    (Stream::Output, String::from(text))
}

fn err(text: &str) -> (Stream, String) {
    (Stream::Error, String::from(text))
}

fn datagram(bytes: &[u8], origin: &str) -> Event {
    let mut buffer = [0u8; 1024];
    let size = bytes.len().min(1024);
    buffer[..size].copy_from_slice(&bytes[..size]);
    Event::Arrival(Arrival::Datagram {
        payload: Payload::capture(&buffer, bytes.len()),
        origin: String::from(origin),
    })
}

fn failure(cause: Cause, text: &str) -> Fault {
    Fault { cause, text: String::from(text) }
}

fn poll(fired: bool) -> Event {
    Event::Signal { fired }
}

#[test]
fn receiver_names() {
    assert_eq!(<broadcast::Receiver as NetReceiver>::name(), "Broadcast");
    assert_eq!(<multicast::Receiver as NetReceiver>::name(), "Multicast");
    assert_eq!(<TCPReceiver as NetReceiver>::name(), "Unicast TCP");
    assert_eq!(<UDPReceiver as NetReceiver>::name(), "Unicast UDP");
}

#[test]
fn broadcast_scenario_receiver_logs_the_message() {
    let mut receiver = broadcast::Receiver::new(9000);
    assert_eq!(receiver.next(), Command::Establish);
    assert_eq!(receiver.addr(), None);
    let mut plan = receiver.plan();
    assert_eq!(plan.target(), "");
    assert!(plan.payload().is_empty());
    assert_eq!(
        issued(&mut plan),
        vec![SocketOp::BindAny { port: 9000 }, SocketOp::ReadTimeout { millis: 100 }]
    );
    assert_eq!(plan.progress(), Progress::Completed);

    assert!(matches!(receiver.bind(String::from("0.0.0.0:9000")), Effect::Nothing));
    assert_eq!(receiver.addr(), Some(String::from("0.0.0.0:9000")));
    assert_eq!(receiver.next(), Command::Start);
    assert_eq!(logged(receiver.run()), out("Broadcast receiver started on 0.0.0.0:9000"));

    assert_eq!(receiver.next(), Command::Poll);
    assert!(matches!(receiver.receive(poll(false)), Effect::Nothing));
    assert_eq!(receiver.next(), Command::Receive);
    assert_eq!(
        logged(receiver.receive(datagram(b"hi", "192.168.1.17:51234"))),
        out("Receive message from 192.168.1.17:51234: hi")
    );
    assert_eq!(receiver.next(), Command::Poll);
    assert!(matches!(receiver.receive(poll(true)), Effect::Nothing));
    assert_eq!(receiver.next(), Command::Stop);
}

#[test]
fn tcp_scenario_message_then_stop_then_join() {
    let mut receiver = TCPReceiver::new("127.0.0.1:9001");
    let mut plan = receiver.plan();
    assert_eq!(plan.target(), "127.0.0.1:9001");
    assert_eq!(issued(&mut plan), vec![SocketOp::Listen, SocketOp::Nonblocking]);
    assert!(matches!(receiver.bind(String::from("127.0.0.1:9001")), Effect::Nothing));
    assert_eq!(logged(receiver.run()), out("Unicast TCP receiver started on 127.0.0.1:9001"));

    // The accept comes first; the poll stands between it and the spawn.
    assert_eq!(receiver.next(), Command::Accept);
    assert!(matches!(receiver.receive(Event::Accept(Accept::Connection)), Effect::Nothing));
    assert_eq!(receiver.next(), Command::Poll);
    assert!(matches!(receiver.receive(poll(false)), Effect::Spawn));
    let payload = Payload::capture(b"x", 1);
    assert_eq!(
        logged(Effect::Log(TCPReceiver::serve("127.0.0.1:40404", Read::Data(payload)))),
        out("Receive message from 127.0.0.1:40404: x")
    );

    // Nobody is waiting, then the interrupt arrives.
    assert_eq!(receiver.next(), Command::Accept);
    let idle = Accept::Failed(failure(Cause::WouldBlock, "would block"));
    assert!(matches!(receiver.receive(Event::Accept(idle)), Effect::Nothing));
    assert_eq!(LogLine::stopping().text, "stopping");
    assert!(matches!(receiver.receive(poll(true)), Effect::Join));
    assert_eq!(receiver.next(), Command::Stop);
    assert!(matches!(receiver.receive(poll(false)), Effect::Nothing));
    assert!(matches!(receiver.receive(Event::Accept(Accept::Connection)), Effect::Nothing));
    assert_eq!(receiver.next(), Command::Stop);
}

#[test]
fn multicast_receiver_joins_its_group() {
    let target = Endpoint { ip: IpAddress::V4(Ipv4 { a: 224, b: 0, c: 0, d: 1 }), port: 8080 };
    let mut receiver = match multicast::Receiver::new(target) {
        Ok(receiver) => receiver,
        Err(error) => panic!("refused: {:?}", error),
    };
    let mut plan = receiver.plan();
    assert_eq!(
        issued(&mut plan),
        vec![
            SocketOp::BindAny { port: 8080 },
            SocketOp::JoinGroup { group: Ipv4 { a: 224, b: 0, c: 0, d: 1 } },
            SocketOp::ReadTimeout { millis: 100 },
        ]
    );
    assert_eq!(
        logged(receiver.bind(String::from("0.0.0.0:8080"))),
        out("Multicast group address: 224.0.0.1")
    );
    // The group is announced once.
    assert!(matches!(receiver.bind(String::from("0.0.0.0:1")), Effect::Nothing));
    assert_eq!(receiver.addr(), Some(String::from("0.0.0.0:8080")));
    assert_eq!(logged(receiver.run()), out("Multicast receiver started on 0.0.0.0:8080"));
    assert!(matches!(receiver.receive(poll(false)), Effect::Nothing));
    assert_eq!(
        logged(receiver.receive(datagram(b"to all", "10.1.2.3:9"))),
        out("Receive message from 10.1.2.3:9: to all")
    );
}

#[test]
fn multicast_receiver_refuses_ipv6_groups() {
    let target = Endpoint { ip: IpAddress::V6(0xff02_0000_0000_0000_0000_0000_0000_0001), port: 8080 };
    match multicast::Receiver::new(target) {
        Ok(_) => panic!("an IPv6 group was accepted"),
        Err(error) => {
            assert_eq!(error, GroupError::Ipv4Only);
            assert_eq!(error.message(), "IPv4 only");
        },
    }
    let loopback = Endpoint { ip: IpAddress::V6(1), port: 0 };
    assert!(matches!(multicast::Receiver::new(loopback), Err(GroupError::Ipv4Only)));
}

#[test]
fn udp_receiver_binds_the_address_itself() {
    let mut receiver = UDPReceiver::new("127.0.0.1:8080");
    let mut plan = receiver.plan();
    assert_eq!(plan.target(), "127.0.0.1:8080");
    assert_eq!(
        issued(&mut plan),
        vec![SocketOp::BindTarget, SocketOp::ReadTimeout { millis: 100 }]
    );
    assert!(matches!(receiver.bind(String::from("127.0.0.1:8080")), Effect::Nothing));
    assert_eq!(logged(receiver.run()), out("Unicast UDP receiver started on 127.0.0.1:8080"));
    assert_eq!(receiver.next(), Command::Poll);
}

#[test]
fn timeouts_and_failures_never_end_the_loop() {
    let mut receiver = UDPReceiver::new("127.0.0.1:8080");
    receiver.bind(String::from("127.0.0.1:8080"));
    receiver.run();
    for round in 0..50 {
        assert_eq!(receiver.next(), Command::Poll);
        assert!(matches!(receiver.receive(poll(false)), Effect::Nothing));
        assert_eq!(receiver.next(), Command::Receive);
        let outcome = match round % 3 {
            0 => failure(Cause::TimedOut, "timed out"),
            1 => failure(Cause::WouldBlock, "would block"),
            _ => failure(Cause::Other, "network unreachable"),
        };
        let effect = receiver.receive(Event::Arrival(Arrival::Failed(outcome)));
        if round % 3 == 2 {
            assert_eq!(logged(effect), err("Failed to receive data: network unreachable"));
        } else {
            assert!(matches!(effect, Effect::Nothing));
        }
    }
    assert_eq!(receiver.next(), Command::Poll);
    assert!(matches!(receiver.receive(poll(true)), Effect::Nothing));
    assert_eq!(receiver.next(), Command::Stop);
}

#[test]
fn cancellation_is_only_seen_at_the_poll() {
    let mut receiver = broadcast::Receiver::new(8080);
    receiver.bind(String::from("0.0.0.0:8080"));
    receiver.run();
    receiver.receive(poll(false));
    // Waiting on the socket: a signal report is not what was asked for.
    assert_eq!(receiver.next(), Command::Receive);
    assert!(matches!(receiver.receive(poll(true)), Effect::Nothing));
    assert_eq!(receiver.next(), Command::Receive);
    receiver.receive(Event::Arrival(Arrival::Failed(failure(Cause::TimedOut, "timed out"))));
    assert_eq!(receiver.next(), Command::Poll);
    receiver.receive(poll(true));
    assert_eq!(receiver.next(), Command::Stop);
    // Terminal: nothing moves it again.
    assert!(matches!(receiver.receive(datagram(b"late", "1.2.3.4:5")), Effect::Nothing));
    assert!(matches!(receiver.receive(poll(false)), Effect::Nothing));
    assert!(matches!(receiver.run(), Effect::Nothing));
    assert!(matches!(receiver.bind(String::from("x")), Effect::Nothing));
    assert_eq!(receiver.next(), Command::Stop);
    assert_eq!(receiver.addr(), Some(String::from("0.0.0.0:8080")));
}

#[test]
fn reports_out_of_turn_are_ignored() {
    let mut receiver = UDPReceiver::new("127.0.0.1:1");
    // Unbound: neither started nor stepping.
    assert!(matches!(receiver.run(), Effect::Nothing));
    assert!(matches!(receiver.receive(poll(true)), Effect::Nothing));
    assert!(matches!(receiver.receive(datagram(b"early", "1.2.3.4:5")), Effect::Nothing));
    assert_eq!(receiver.next(), Command::Establish);
    receiver.bind(String::from("127.0.0.1:1"));
    assert!(matches!(receiver.receive(poll(true)), Effect::Nothing));
    assert_eq!(receiver.next(), Command::Start);
    receiver.run();
    // Polling: an arrival or an accept is not what was asked for.
    assert!(matches!(receiver.receive(datagram(b"early", "1.2.3.4:5")), Effect::Nothing));
    assert!(matches!(receiver.receive(Event::Accept(Accept::Connection)), Effect::Nothing));
    assert_eq!(receiver.next(), Command::Poll);
    // A second start announces nothing.
    assert!(matches!(receiver.run(), Effect::Nothing));
    assert_eq!(receiver.next(), Command::Poll);
}

#[test]
fn tcp_accept_loop_backs_off_logs_and_spawns() {
    let mut receiver = TCPReceiver::new("127.0.0.1:9001");
    receiver.bind(String::from("127.0.0.1:9001"));
    receiver.run();

    let idle = Accept::Failed(failure(Cause::WouldBlock, "would block"));
    assert!(matches!(receiver.receive(Event::Accept(idle)), Effect::Nothing));
    assert!(matches!(receiver.receive(poll(false)), Effect::Pause { millis: 100 }));

    let broken = Accept::Failed(failure(Cause::Other, "too many open files"));
    assert!(matches!(receiver.receive(Event::Accept(broken)), Effect::Nothing));
    assert_eq!(
        logged(receiver.receive(poll(false))),
        err("Failed to accept connection: too many open files")
    );

    // On a listening socket a timeout is a failure like any other.
    let late = Accept::Failed(failure(Cause::TimedOut, "timed out"));
    assert!(matches!(receiver.receive(Event::Accept(late)), Effect::Nothing));
    assert_eq!(
        logged(receiver.receive(poll(false))),
        err("Failed to accept connection: timed out")
    );

    let mut spawns = 0;
    for _ in 0..5 {
        assert_eq!(receiver.next(), Command::Accept);
        assert!(matches!(receiver.receive(Event::Accept(Accept::Connection)), Effect::Nothing));
        assert_eq!(receiver.next(), Command::Poll);
        if let Effect::Spawn = receiver.receive(poll(false)) {
            spawns += 1;
        }
        // A repeated poll report does not spawn again.
        assert!(matches!(receiver.receive(poll(false)), Effect::Nothing));
    }
    assert_eq!(spawns, 5);
}

#[test]
fn tcp_connection_accepted_at_cancellation_is_not_served() {
    let mut receiver = TCPReceiver::new("127.0.0.1:9001");
    receiver.bind(String::from("127.0.0.1:9001"));
    receiver.run();
    assert!(matches!(receiver.receive(Event::Accept(Accept::Connection)), Effect::Nothing));
    assert!(matches!(receiver.receive(poll(true)), Effect::Join));
    assert_eq!(receiver.next(), Command::Stop);
}

#[test]
fn each_connection_yields_exactly_one_line() {
    let messages = ["alpha", "beta", "gamma", "delta"];
    let mut lines = Vec::new();
    for (i, message) in messages.iter().enumerate() {
        let origin = format!("127.0.0.1:{}", 50000 + i);
        let payload = Payload::capture(message.as_bytes(), message.len());
        lines.push(TCPReceiver::serve(&origin, Read::Data(payload)).text);
    }
    assert_eq!(
        lines,
        vec![
            "Receive message from 127.0.0.1:50000: alpha",
            "Receive message from 127.0.0.1:50001: beta",
            "Receive message from 127.0.0.1:50002: gamma",
            "Receive message from 127.0.0.1:50003: delta",
        ]
    );
}

#[test]
fn a_read_that_would_block_is_an_empty_receive() {
    let line = TCPReceiver::serve("127.0.0.1:5", Read::Failed(failure(Cause::WouldBlock, "w")));
    assert_eq!((line.stream, line.text.as_str()), (Stream::Error, "Receive empty from 127.0.0.1:5"));
    let line = TCPReceiver::serve("127.0.0.1:5", Read::Failed(failure(Cause::Other, "reset")));
    assert_eq!(
        (line.stream, line.text.as_str()),
        (Stream::Error, "Failed to read from connection: reset")
    );
    let line = TCPReceiver::serve("127.0.0.1:5", Read::Failed(failure(Cause::TimedOut, "late")));
    assert_eq!(
        (line.stream, line.text.as_str()),
        (Stream::Error, "Failed to read from connection: late")
    );
    let line = TCPReceiver::serve("127.0.0.1:5", Read::Data(Payload::capture(&[], 0)));
    assert_eq!(
        (line.stream, line.text.as_str()),
        (Stream::Output, "Receive message from 127.0.0.1:5: ")
    );
}

#[test]
fn what_is_sent_is_what_is_logged() {
    let message = "gr\u{fc}\u{df}e, \u{4e16}\u{754c}!";
    let script = <netools::unicast::UDPSender as netools::NetSender>::send("127.0.0.1:8080", message);
    let mut receiver = UDPReceiver::new("127.0.0.1:8080");
    receiver.bind(String::from("127.0.0.1:8080"));
    receiver.run();
    receiver.receive(poll(false));
    assert_eq!(
        logged(receiver.receive(datagram(script.payload(), "127.0.0.1:33333"))),
        out("Receive message from 127.0.0.1:33333: gr\u{fc}\u{df}e, \u{4e16}\u{754c}!")
    );
    let script = <netools::unicast::TCPSender as netools::NetSender>::send("127.0.0.1:8080", message);
    let payload = Payload::capture(script.payload(), script.payload().len());
    assert_eq!(
        TCPReceiver::serve("127.0.0.1:33334", Read::Data(payload)).text,
        "Receive message from 127.0.0.1:33334: gr\u{fc}\u{df}e, \u{4e16}\u{754c}!"
    );
}

#[test]
fn oversized_datagrams_are_cut_at_the_buffer() {
    let big = vec![b'a'; 1500];
    let mut receiver = broadcast::Receiver::new(1);
    receiver.bind(String::from("0.0.0.0:1"));
    receiver.run();
    receiver.receive(poll(false));
    let (stream, text) = logged(receiver.receive(datagram(&big, "9.9.9.9:9")));
    assert_eq!(stream, Stream::Output);
    assert_eq!(text.len(), "Receive message from 9.9.9.9:9: ".len() + 1024);
    assert!(text.ends_with(&"a".repeat(1024)));
}

#[test]
fn malformed_datagrams_are_logged_with_replacements() {
    let effect = deliver_arrival(Arrival::Datagram {
        payload: Payload::capture(&[b'o', b'k', 0xff, b'!'], 4),
        origin: String::from("10.0.0.1:7"),
    });
    assert_eq!(logged(effect), out("Receive message from 10.0.0.1:7: ok\u{fffd}!"));
}

#[test]
fn deliver_and_settle_on_their_own() {
    assert!(matches!(
        deliver_arrival(Arrival::Failed(failure(Cause::TimedOut, "t"))),
        Effect::Nothing
    ));
    assert!(matches!(
        deliver_arrival(Arrival::Failed(failure(Cause::WouldBlock, "w"))),
        Effect::Nothing
    ));
    assert_eq!(
        logged(deliver_arrival(Arrival::Failed(failure(Cause::Other, "boom")))),
        err("Failed to receive data: boom")
    );
    assert!(matches!(settle_accept(None), Effect::Nothing));
    assert!(matches!(settle_accept(Some(Accept::Connection)), Effect::Spawn));
    assert!(matches!(
        settle_accept(Some(Accept::Failed(failure(Cause::WouldBlock, "w")))),
        Effect::Pause { millis: 100 }
    ));
    assert_eq!(
        logged(settle_accept(Some(Accept::Failed(failure(Cause::Other, "boom"))))),
        err("Failed to accept connection: boom")
    );
}

#[test]
fn lifecycle_walks_its_phases() {
    let mut life = Lifecycle::new();
    assert_eq!(life.phase(), Phase::Unbound);
    assert_eq!(life.addr(), None);
    life.bind(String::from("0.0.0.0:7"));
    assert_eq!(life.phase(), Phase::Bound);
    assert_eq!(life.next(Transport::UnicastTcp), Command::Start);
    assert_eq!(
        logged(life.run(Transport::UnicastTcp)),
        out("Unicast TCP receiver started on 0.0.0.0:7")
    );
    assert_eq!(life.phase(), Phase::Listening);
    life.receive(Transport::UnicastTcp, Event::Accept(Accept::Connection));
    assert_eq!(life.phase(), Phase::Polling);
    life.receive(Transport::UnicastTcp, poll(true));
    assert_eq!(life.phase(), Phase::Cancelled);

    let mut life = Lifecycle::new();
    life.bind(String::from("0.0.0.0:7"));
    life.run(Transport::Multicast);
    assert_eq!(life.phase(), Phase::Polling);
    assert_eq!(life.next(Transport::Multicast), Command::Poll);
    life.receive(Transport::Multicast, poll(false));
    assert_eq!(life.phase(), Phase::Listening);
    assert_eq!(life.next(Transport::Multicast), Command::Receive);
}
