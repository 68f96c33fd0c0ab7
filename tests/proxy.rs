use proxy_rs::addr::{are_addrs_eq, contains_addr, to_ipv6_mapped, IpAddr, SockAddr};
use proxy_rs::endpoints::{collect_addrs, plan_endpoints, BuildError, DEFAULT_BUFFER_SIZE};
use proxy_rs::tcp::{self, AcceptDecision, AcceptFailure, ConnectDecision, Direction, Pipe, PipeAction, PipeInput, Session};
use proxy_rs::udp::{self, Datagram, Phase, UdpAction, UdpInput};
use proxy_rs::{Arrival, Event, EventManager};

const LOCALHOST: u32 = 0x7f00_0001;

fn v4(ip: u32, port: u16) -> SockAddr {
    SockAddr::new(IpAddr::V4(ip), port)
}

fn v6(ip: u128, port: u16) -> SockAddr {
    SockAddr::new(IpAddr::V6(ip), port)
}

fn text(s: &str) -> String {
    s.to_string()
}

#[test]
fn mapped_form_of_localhost() {
    assert_eq!(to_ipv6_mapped(LOCALHOST), 0xffff_7f00_0001);
    assert_eq!(to_ipv6_mapped(0), 0xffff_0000_0000);
}

#[test]
fn ipv4_matches_its_mapped_ipv6_form() {
    let a = v4(LOCALHOST, 9000);
    let b = v6(0xffff_7f00_0001, 9000);
    assert!(are_addrs_eq(&a, &b));
    assert!(are_addrs_eq(&b, &a));
    assert!(are_addrs_eq(&a, &a));
}

#[test]
fn different_ports_or_ips_do_not_match() {
    assert!(!are_addrs_eq(&v4(LOCALHOST, 9000), &v6(0xffff_7f00_0001, 9001)));
    assert!(!are_addrs_eq(&v4(LOCALHOST, 9000), &v4(LOCALHOST + 1, 9000)));
    assert!(!are_addrs_eq(&v4(LOCALHOST, 9000), &v6(0x7f00_0001, 9000)));
    assert!(!are_addrs_eq(&v6(1, 9000), &v6(2, 9000)));
}

#[test]
fn contains_addr_looks_through_set() {
    let set = vec![v4(LOCALHOST, 3000), v6(1, 4000)];
    assert!(contains_addr(&set, &v6(0xffff_7f00_0001, 3000)));
    assert!(contains_addr(&set, &v6(1, 4000)));
    assert!(!contains_addr(&set, &v4(LOCALHOST, 4000)));
    assert!(!contains_addr(&Vec::new(), &v4(LOCALHOST, 3000)));
}

#[test]
fn pipe_forwards_chunks_verbatim() {
    let mut p = Pipe::new(v4(1, 1), v4(2, 2), v4(3, 3), 4);
    assert_eq!(p.buffer_size(), 4);
    let chunks: Vec<Vec<u8>> = vec![vec![0xff, 0x00, 0x80, 7], vec![1], vec![b'a', b'b']];
    let mut out: Vec<u8> = Vec::new();
    for c in chunks.iter() {
        let step = p.handle(PipeInput::Read(c.clone()));
        assert!(step.event.is_none());
        match step.action {
            PipeAction::Write(w) => {
                assert_eq!(&w, c);
                out.extend(w);
            }
            _ => panic!("expected a write"),
        }
        let step = p.handle(PipeInput::Written);
        assert!(matches!(step.action, PipeAction::Read));
        assert!(matches!(step.event, Some(tcp::Event::Message(_))));
    }
    assert_eq!(out, vec![0xff, 0x00, 0x80, 7, 1, b'a', b'b']);
}

#[test]
fn pipe_reports_text_of_invalid_bytes_permissively() {
    let mut p = Pipe::new(v4(1, 1), v4(2, 2), v4(3, 3), 16);
    let _ = p.handle(PipeInput::Read(vec![b'h', 0xff, b'i']));
    let step = p.handle(PipeInput::Written);
    match step.event {
        Some(tcp::Event::Message(m)) => assert_eq!(m.message, "h\u{fffd}i"),
        _ => panic!("expected a message"),
    }
}

#[test]
fn pipe_stops_on_empty_read() {
    let mut p = Pipe::new(v4(1, 1), v4(2, 2), v4(3, 3), 16);
    let step = p.handle(PipeInput::Read(Vec::new()));
    assert!(matches!(step.action, PipeAction::Stop));
    assert!(step.event.is_none());
    let step = p.handle(PipeInput::Read(vec![1]));
    assert!(matches!(step.action, PipeAction::Stop));
}

#[test]
fn pipe_stops_when_cancelled_while_reading_or_writing() {
    let mut p = Pipe::new(v4(1, 1), v4(2, 2), v4(3, 3), 16);
    let step = p.handle(PipeInput::Cancelled);
    assert!(matches!(step.action, PipeAction::Stop));
    assert!(step.event.is_none());

    let mut q = Pipe::new(v4(1, 1), v4(2, 2), v4(3, 3), 16);
    let _ = q.handle(PipeInput::Read(vec![9]));
    let step = q.handle(PipeInput::Cancelled);
    assert!(matches!(step.action, PipeAction::Stop));
    let step = q.handle(PipeInput::Written);
    assert!(matches!(step.action, PipeAction::Stop));
    assert!(step.event.is_none());
}

#[test]
fn pipe_reports_read_and_write_failures() {
    let mut p = Pipe::new(v4(1, 1), v4(2, 2), v4(3, 3), 16);
    let step = p.handle(PipeInput::ReadFailed(text("reset")));
    assert!(matches!(step.action, PipeAction::Stop));
    assert_eq!(
        step.event,
        Some(tcp::Event::MessageError(tcp::MessageError {
            from_addr: v4(1, 1),
            local_addr: v4(2, 2),
            to_addr: v4(3, 3),
            error: text("reset"),
        }))
    );

    let mut q = Pipe::new(v4(1, 1), v4(2, 2), v4(3, 3), 16);
    let _ = q.handle(PipeInput::Read(vec![1, 2]));
    let step = q.handle(PipeInput::WriteFailed(text("broken pipe")));
    assert!(matches!(step.action, PipeAction::Stop));
    assert_eq!(
        step.event,
        Some(tcp::Event::MessageError(tcp::MessageError {
            from_addr: v4(1, 1),
            local_addr: v4(2, 2),
            to_addr: v4(3, 3),
            error: text("broken pipe"),
        }))
    );
}

#[test]
fn pipe_ignores_inputs_that_answer_nothing() {
    let mut p = Pipe::new(v4(1, 1), v4(2, 2), v4(3, 3), 16);
    let step = p.handle(PipeInput::Written);
    assert!(matches!(step.action, PipeAction::Read));
    assert!(step.event.is_none());
    let _ = p.handle(PipeInput::Read(vec![5]));
    let step = p.handle(PipeInput::Read(vec![6]));
    match step.action {
        PipeAction::Write(w) => assert_eq!(w, vec![5]),
        _ => panic!("expected the pending write again"),
    }
}

#[test]
fn session_cancels_other_direction_and_disconnects_once() {
    let mut s = Session::new(v4(1, 1), v4(2, 2), v4(3, 3));
    let first = s.finish(Direction::RemoteToClient);
    assert!(first.cancel_other);
    assert!(first.event.is_none());
    let second = s.finish(Direction::ClientToRemote);
    assert!(!second.cancel_other);
    assert_eq!(
        second.event,
        Some(tcp::Event::Disconnection(tcp::Disconnection {
            client_addr: v4(1, 1),
            local_addr: v4(2, 2),
            remote_addr: v4(3, 3),
        }))
    );
    let again = s.finish(Direction::ClientToRemote);
    assert!(again.event.is_none());
}

#[test]
fn accept_failure_stops_and_is_reported() {
    let engine = tcp::Proxy::new(v4(LOCALHOST, 8000), vec![v4(LOCALHOST, 3000)], DEFAULT_BUFFER_SIZE);
    match engine.on_accept(Ok(v4(LOCALHOST, 50000))) {
        AcceptDecision::Connect(c) => assert_eq!(c, v4(LOCALHOST, 50000)),
        _ => panic!("expected a connect"),
    }
    match engine.on_accept(Err(AcceptFailure { error: text("bad file descriptor"), fatal: true })) {
        AcceptDecision::Stop(ev) => assert_eq!(
            ev,
            tcp::Event::ConnectionError(tcp::ConnectionError {
                local_addr: v4(LOCALHOST, 8000),
                error: text("bad file descriptor"),
            })
        ),
        _ => panic!("expected a stop"),
    }
}

#[test]
fn recoverable_accept_failure_is_reported_and_accepting_goes_on() {
    let engine = tcp::Proxy::new(v4(LOCALHOST, 8000), vec![v4(LOCALHOST, 3000)], DEFAULT_BUFFER_SIZE);
    match engine.on_accept(Err(AcceptFailure { error: text("connection aborted"), fatal: false })) {
        AcceptDecision::Continue(ev) => assert_eq!(
            ev,
            tcp::Event::ConnectionError(tcp::ConnectionError {
                local_addr: v4(LOCALHOST, 8000),
                error: text("connection aborted"),
            })
        ),
        _ => panic!("expected accepting to go on"),
    }
}

#[test]
fn connect_failure_abandons_client_without_session() {
    let engine = tcp::Proxy::new(v4(LOCALHOST, 8000), vec![v4(LOCALHOST, 3000)], DEFAULT_BUFFER_SIZE);
    match engine.on_connect(v4(LOCALHOST, 50000), Err(text("connection refused"))) {
        ConnectDecision::Abandon(ev) => assert_eq!(
            ev,
            tcp::Event::ConnectionError(tcp::ConnectionError {
                local_addr: v4(LOCALHOST, 8000),
                error: text("connection refused"),
            })
        ),
        _ => panic!("expected the client to be dropped"),
    }
}

fn drive_write(p: &mut Pipe, bytes: &[u8], events: &mut Vec<tcp::Event>) -> Vec<u8> {
    let step = p.handle(PipeInput::Read(bytes.to_vec()));
    let written = match step.action {
        PipeAction::Write(w) => w,
        _ => panic!("expected a write"),
    };
    let step = p.handle(PipeInput::Written);
    if let Some(e) = step.event {
        events.push(e);
    }
    written
}

#[test]
fn tcp_ping_through_echo_server() {
    let local = v4(LOCALHOST, 8000);
    let remote = v4(LOCALHOST, 3000);
    let client = v4(LOCALHOST, 50000);
    let engine = tcp::Proxy::new(local, vec![remote], DEFAULT_BUFFER_SIZE);
    let mut events: Vec<tcp::Event> = Vec::new();

    let mut session = match engine.on_connect(client, Ok(remote)) {
        ConnectDecision::Start(s, ev) => {
            events.push(ev);
            s
        }
        _ => panic!("expected a session"),
    };
    let mut up = session.pipe(Direction::ClientToRemote, engine.buffer_size);
    let mut down = session.pipe(Direction::RemoteToClient, engine.buffer_size);

    let at_remote = drive_write(&mut up, b"ping", &mut events);
    assert_eq!(at_remote, b"ping".to_vec());
    let at_client = drive_write(&mut down, &at_remote, &mut events);
    assert_eq!(at_client, b"ping".to_vec());

    // The client closes: its direction ends, the other one is cancelled.
    let step = up.handle(PipeInput::Read(Vec::new()));
    assert!(matches!(step.action, PipeAction::Stop));
    let first = session.finish(Direction::ClientToRemote);
    assert!(first.cancel_other);
    let step = down.handle(PipeInput::Cancelled);
    assert!(matches!(step.action, PipeAction::Stop));
    let second = session.finish(Direction::RemoteToClient);
    events.push(second.event.expect("disconnection"));

    assert_eq!(
        events,
        vec![
            tcp::Event::Connection(tcp::Connection { client_addr: client, local_addr: local, remote_addr: remote }),
            tcp::Event::Message(tcp::Message {
                from_addr: client,
                local_addr: local,
                to_addr: remote,
                message: text("ping"),
            }),
            tcp::Event::Message(tcp::Message {
                from_addr: remote,
                local_addr: local,
                to_addr: client,
                message: text("ping"),
            }),
            tcp::Event::Disconnection(tcp::Disconnection { client_addr: client, local_addr: local, remote_addr: remote }),
        ]
    );
}

fn dgram(bytes: &[u8], addr: SockAddr) -> Datagram {
    Datagram { payload: bytes.to_vec(), addr }
}

#[test]
fn udp_hello_world_exchange() {
    let local = v6(0, 8000);
    let remote = v4(LOCALHOST, 3000);
    let client = v6(0xffff_7f00_0001, 41000);
    let mut engine = udp::Proxy::new(local, vec![remote], DEFAULT_BUFFER_SIZE);
    let mut events: Vec<udp::Event> = Vec::new();

    assert!(matches!(engine.next_exchange(), UdpAction::Receive));
    let step = engine.handle(UdpInput::Received(dgram(b"hello", client)));
    match step.action {
        UdpAction::SendToRemotes(p) => assert_eq!(p, b"hello".to_vec()),
        _ => panic!("expected a forward"),
    }
    let step = engine.handle(UdpInput::Sent);
    events.extend(step.events);
    assert!(matches!(step.action, UdpAction::Receive));
    // The reply comes from the mapped form of the remote address.
    let step = engine.handle(UdpInput::Received(dgram(b"world", v6(0xffff_7f00_0001, 3000))));
    match step.action {
        UdpAction::SendToClient(p, to) => {
            assert_eq!(p, b"world".to_vec());
            assert_eq!(to, client);
        }
        _ => panic!("expected a reply"),
    }
    let step = engine.handle(UdpInput::Sent);
    events.extend(step.events);
    assert!(matches!(step.action, UdpAction::Receive));
    assert_eq!(engine.phase, Phase::AwaitingClientMessage);

    assert_eq!(
        events,
        vec![
            udp::Event::Message(udp::Message { from_addr: client, local_addr: local, to_addr: remote, message: text("hello") }),
            udp::Event::Message(udp::Message {
                from_addr: v6(0xffff_7f00_0001, 3000),
                local_addr: local,
                to_addr: client,
                message: text("world"),
            }),
        ]
    );
}

#[test]
fn udp_unmatched_traffic_is_queued_in_arrival_order() {
    let remote = v4(LOCALHOST, 3000);
    let a = v4(LOCALHOST, 41000);
    let b = v4(LOCALHOST, 42000);
    let c = v4(LOCALHOST, 43000);
    let mut engine = udp::Proxy::new(v4(0, 8000), vec![remote], DEFAULT_BUFFER_SIZE);
    let _ = engine.next_exchange();
    let _ = engine.handle(UdpInput::Received(dgram(b"one", a)));
    let _ = engine.handle(UdpInput::Sent);
    let step = engine.handle(UdpInput::Received(dgram(b"two", b)));
    assert!(matches!(step.action, UdpAction::Receive));
    assert!(step.events.is_empty());
    let _ = engine.handle(UdpInput::Received(dgram(b"three", c)));
    assert_eq!(engine.queue.len(), 2);
    let _ = engine.handle(UdpInput::Received(dgram(b"reply", remote)));
    let step = engine.handle(UdpInput::Sent);
    // The next client message is the oldest held one, without a receive.
    match step.action {
        UdpAction::SendToRemotes(p) => assert_eq!(p, b"two".to_vec()),
        _ => panic!("expected the held datagram"),
    }
    assert_eq!(engine.phase, Phase::ForwardedToRemote { client: b });
    let _ = engine.handle(UdpInput::Sent);
    let _ = engine.handle(UdpInput::Received(dgram(b"reply", remote)));
    let _ = engine.handle(UdpInput::Sent);
    assert_eq!(engine.phase, Phase::ForwardedToRemote { client: c });
    assert_eq!(engine.payload, b"three".to_vec());
    assert!(engine.queue.is_empty());
}

#[test]
fn udp_receive_failure_is_reported_and_cycle_restarts() {
    let remote = v4(LOCALHOST, 3000);
    let local = v4(0, 8000);
    let mut engine = udp::Proxy::new(local, vec![remote], DEFAULT_BUFFER_SIZE);
    let _ = engine.next_exchange();
    let step = engine.handle(UdpInput::RecvFailed(text("interrupted")));
    assert!(matches!(step.action, UdpAction::Receive));
    assert_eq!(
        step.events,
        vec![udp::Event::MessageError(udp::MessageError {
            from_addr: None,
            local_addr: local,
            to_addr: remote,
            error: text("interrupted"),
        })]
    );
    assert_eq!(engine.phase, Phase::AwaitingClientMessage);
}

#[test]
fn udp_send_failures_are_reported_and_exchange_goes_on() {
    let remote = v4(LOCALHOST, 3000);
    let local = v4(0, 8000);
    let client = v4(LOCALHOST, 41000);
    let mut engine = udp::Proxy::new(local, vec![remote], DEFAULT_BUFFER_SIZE);
    let _ = engine.next_exchange();
    let _ = engine.handle(UdpInput::Received(dgram(b"x", client)));
    let step = engine.handle(UdpInput::SendFailed(text("unreachable")));
    assert!(matches!(step.action, UdpAction::Receive));
    assert_eq!(step.events.len(), 2);
    assert_eq!(
        step.events[0],
        udp::Event::MessageError(udp::MessageError {
            from_addr: Some(client),
            local_addr: local,
            to_addr: remote,
            error: text("unreachable"),
        })
    );
    // The reply comes in the mapped form; the failure names the remote as configured.
    let _ = engine.handle(UdpInput::Received(dgram(b"y", v6(0xffff_7f00_0001, 3000))));
    let step = engine.handle(UdpInput::SendFailed(text("gone")));
    assert_eq!(
        step.events[0],
        udp::Event::MessageError(udp::MessageError {
            from_addr: Some(remote),
            local_addr: local,
            to_addr: client,
            error: text("gone"),
        })
    );
    assert_eq!(engine.phase, Phase::AwaitingClientMessage);
}

#[test]
fn udp_ignores_mismatched_input() {
    let remote = v4(LOCALHOST, 3000);
    let mut engine = udp::Proxy::new(v4(0, 8000), vec![remote], DEFAULT_BUFFER_SIZE);
    let step = engine.handle(UdpInput::Sent);
    assert!(matches!(step.action, UdpAction::Receive));
    assert!(step.events.is_empty());
    assert_eq!(engine.remote_addr(), remote);
}

#[test]
fn aggregator_tags_and_stops_on_close() {
    let mut m = EventManager::new();
    let t = tcp::Event::Disconnection(tcp::Disconnection {
        client_addr: v4(1, 1),
        local_addr: v4(2, 2),
        remote_addr: v4(3, 3),
    });
    let u = udp::Event::Message(udp::Message { from_addr: v4(1, 1), local_addr: v4(2, 2), to_addr: v4(3, 3), message: text("m") });
    assert_eq!(m.dispatch(Arrival::Tcp(t.clone())), Some(Event::Tcp(t.clone())));
    assert_eq!(m.dispatch(Arrival::Udp(u.clone())), Some(Event::Udp(u)));
    assert_eq!(m.dispatch(Arrival::Close), None);
    assert!(!m.running);
    assert_eq!(m.dispatch(Arrival::Tcp(t)), None);
}

#[test]
fn resolution_failure_fails_construction() {
    let ok = vec![Ok(vec![v4(LOCALHOST, 8000)])];
    let bad: Vec<Result<Vec<SockAddr>, String>> = vec![Ok(vec![v4(LOCALHOST, 3000)]), Err(text("no such host")), Err(text("later"))];
    match plan_endpoints(&ok, &bad) {
        Err(BuildError::Resolve(e)) => assert_eq!(e, "no such host"),
        _ => panic!("expected a resolution failure"),
    }
    match plan_endpoints(&bad, &ok) {
        Err(BuildError::Resolve(e)) => assert_eq!(e, "no such host"),
        _ => panic!("expected a resolution failure"),
    }
}

#[test]
fn empty_sides_fail_construction() {
    let ok = vec![Ok(vec![v4(LOCALHOST, 8000)])];
    let none: Vec<Result<Vec<SockAddr>, String>> = vec![Ok(Vec::new())];
    assert!(matches!(plan_endpoints(&none, &ok), Err(BuildError::NoLocalAddress)));
    assert!(matches!(plan_endpoints(&ok, &Vec::new()), Err(BuildError::NoRemoteAddress)));
}

#[test]
fn endpoints_joined_in_lookup_order() {
    let locals = vec![Ok(vec![v4(1, 1), v4(2, 2)]), Ok(vec![]), Ok(vec![v6(3, 3)])];
    assert_eq!(collect_addrs(&locals), Ok(vec![v4(1, 1), v4(2, 2), v6(3, 3)]));
    let remotes = vec![Ok(vec![v4(LOCALHOST, 3000)])];
    let ep = plan_endpoints(&locals, &remotes).expect("endpoints");
    assert_eq!(ep.local_addrs, vec![v4(1, 1), v4(2, 2), v6(3, 3)]);
    assert_eq!(ep.remote_addrs, vec![v4(LOCALHOST, 3000)]);
    assert_eq!(DEFAULT_BUFFER_SIZE, 1024);
}

#[test]
fn event_payloads_convert_into_events() {
    let c = tcp::Connection { client_addr: v4(1, 1), local_addr: v4(2, 2), remote_addr: v4(3, 3) };
    assert_eq!(tcp::Event::from(c), tcp::Event::Connection(c));
    let e = tcp::ConnectionError { local_addr: v4(2, 2), error: text("refused") };
    assert_eq!(tcp::Event::from(e.clone()), tcp::Event::ConnectionError(e));
    let m = udp::MessageError { from_addr: None, local_addr: v4(2, 2), to_addr: v4(3, 3), error: text("x") };
    assert_eq!(udp::Event::from(m.clone()), udp::Event::MessageError(m));
}
