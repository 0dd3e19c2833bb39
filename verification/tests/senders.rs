use netools::broadcast;
use netools::multicast;
use netools::script::{Progress, Script, SocketOp};
use netools::line::Stream;
use netools::transport::Transport;
use netools::unicast::{TCPSender, UDPSender};
use netools::NetSender;

/// Performs a script with every operation succeeding and lists what was issued.
fn issued(script: &mut Script) -> Vec<SocketOp> {
    let mut ops = Vec::new();
    while let Some(op) = script.next() {
        ops.push(op);
        script.record(true);
    }
    ops
}

#[test]
fn sender_names() {
    assert_eq!(<broadcast::Sender as NetSender>::name(), "Broadcast");
    assert_eq!(<multicast::Sender as NetSender>::name(), "Multicast");
    assert_eq!(<TCPSender as NetSender>::name(), "Unicast TCP");
    assert_eq!(<UDPSender as NetSender>::name(), "Unicast UDP");
    assert_eq!(Transport::Broadcast.name(), "Broadcast");
    assert_eq!(Transport::Multicast.name(), "Multicast");
    assert_eq!(Transport::UnicastTcp.name(), "Unicast TCP");
    assert_eq!(Transport::UnicastUdp.name(), "Unicast UDP");
}

#[test]
fn broadcast_send_enables_broadcast_before_sending() {
    let mut script = broadcast::Sender::send("255.255.255.255:9000", "hi");
    assert_eq!(script.target(), "255.255.255.255:9000");
    assert_eq!(script.payload(), b"hi");
    assert_eq!(script.progress(), Progress::Pending);
    assert_eq!(
        issued(&mut script),
        vec![SocketOp::OpenDatagram, SocketOp::EnableBroadcast, SocketOp::SendTo]
    );
    assert_eq!(script.progress(), Progress::Completed);
    assert_eq!(script.next(), None);
}

#[test]
fn broadcast_send_without_capability_is_fatal() {
    let mut script = broadcast::Sender::send("255.255.255.255:9000", "hi");
    assert_eq!(script.next(), Some(SocketOp::OpenDatagram));
    script.record(true);
    assert_eq!(script.next(), Some(SocketOp::EnableBroadcast));
    script.record(false);
    assert_eq!(script.progress(), Progress::Aborted);
    assert_eq!(script.next(), None);
    // Nothing revives an aborted script: the datagram is never sent.
    script.record(true);
    script.record(true);
    assert_eq!(script.progress(), Progress::Aborted);
    assert_eq!(script.next(), None);
}

#[test]
fn multicast_send_needs_no_membership() {
    let mut script = multicast::Sender::send("224.0.0.1:8080", "hello group");
    assert_eq!(script.target(), "224.0.0.1:8080");
    assert_eq!(script.payload(), b"hello group");
    assert_eq!(issued(&mut script), vec![SocketOp::OpenDatagram, SocketOp::SendTo]);
}

#[test]
fn udp_send_is_one_datagram() {
    let mut script = UDPSender::send("127.0.0.1:8080", "ping");
    assert_eq!(script.target(), "127.0.0.1:8080");
    assert_eq!(script.payload(), b"ping");
    assert_eq!(issued(&mut script), vec![SocketOp::OpenDatagram, SocketOp::SendTo]);
}

#[test]
fn tcp_send_connects_then_writes() {
    let mut script = TCPSender::send("127.0.0.1:9001", "x");
    assert_eq!(script.target(), "127.0.0.1:9001");
    assert_eq!(script.payload(), b"x");
    assert_eq!(issued(&mut script), vec![SocketOp::Connect, SocketOp::WriteAll]);
}

#[test]
fn tcp_send_failed_connect_writes_nothing() {
    let mut script = TCPSender::send("127.0.0.1:9001", "x");
    assert_eq!(script.next(), Some(SocketOp::Connect));
    script.record(false);
    assert_eq!(script.next(), None);
    assert_eq!(script.progress(), Progress::Aborted);
}

#[test]
fn payload_is_the_utf8_encoding() {
    let script = UDPSender::send("127.0.0.1:8080", "h\u{e9}llo \u{4e16}\u{754c}");
    assert_eq!(script.payload(), "h\u{e9}llo \u{4e16}\u{754c}".as_bytes());
    assert_eq!(script.payload().len(), 13);
    let empty = UDPSender::send("127.0.0.1:8080", "");
    assert!(empty.payload().is_empty());
}

#[test]
fn run_announces_then_sends() {
    let (line, mut script) = broadcast::Sender::run("255.255.255.255:8080", "hi");
    assert_eq!(line.stream, Stream::Output);
    assert_eq!(line.text, "Broadcast sender started");
    assert_eq!(issued(&mut script).len(), 3);

    let (line, script) = multicast::Sender::run("224.0.0.1:8080", "hi");
    assert_eq!(line.text, "Multicast sender started");
    assert_eq!(script.target(), "224.0.0.1:8080");

    let (line, script) = TCPSender::run("127.0.0.1:8080", "hi");
    assert_eq!(line.text, "Unicast TCP sender started");
    assert_eq!(script.payload(), b"hi");

    let (line, script) = UDPSender::run("127.0.0.1:8080", "hi");
    assert_eq!(line.text, "Unicast UDP sender started");
    assert_eq!(script.progress(), Progress::Pending);
}

#[test]
fn script_of_no_operations_is_complete() {
    let mut script = Script::new(Vec::new(), String::from("nowhere"), Vec::new());
    assert_eq!(script.progress(), Progress::Completed);
    assert_eq!(script.next(), None);
    script.record(false);
    assert_eq!(script.progress(), Progress::Completed);
}

#[test]
fn script_reports_advance_one_operation_at_a_time() {
    let ops = vec![
        SocketOp::BindAny { port: 7 },
        SocketOp::ReadTimeout { millis: 100 },
    ];
    let mut script = Script::new(ops, String::new(), vec![1, 2, 3]);
    assert_eq!(script.payload(), &[1, 2, 3]);
    assert_eq!(script.next(), Some(SocketOp::BindAny { port: 7 }));
    assert_eq!(script.next(), Some(SocketOp::BindAny { port: 7 }));
    script.record(true);
    assert_eq!(script.next(), Some(SocketOp::ReadTimeout { millis: 100 }));
    assert_eq!(script.progress(), Progress::Pending);
    script.record(true);
    assert_eq!(script.progress(), Progress::Completed);
    script.record(false);
    assert_eq!(script.progress(), Progress::Completed);
}
