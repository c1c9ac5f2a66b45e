use ws_broadcast::acceptor::{after_upgrade, AcceptEvent, Acceptor, AcceptorAction, AcceptorPhase, TaskAction};
use ws_broadcast::annotate::annotate;
use ws_broadcast::bus::{Bus, Received, BUS_CAPACITY};
use ws_broadcast::client::{ClientAction, ClientError, ClientEvent, ClientLoop, ClientPhase};
use ws_broadcast::endpoint::{push_decimal, Endpoint};
use ws_broadcast::frame::Frame;
use ws_broadcast::handler::{bus_event, Handler, HandlerAction, HandlerError, HandlerEvent, HandlerPhase};

fn text(s: &str) -> HandlerEvent {
    HandlerEvent::Inbound(Frame::Text(s.to_string()))
}

fn published(a: HandlerAction) -> String {
    match a {
        HandlerAction::Publish(m) => m,
        _ => panic!("expected a publish"),
    }
}

fn sent(a: HandlerAction) -> String {
    match a {
        HandlerAction::Send(m) => m,
        _ => panic!("expected a send"),
    }
}

fn next_message(sub: &mut ws_broadcast::bus::Subscription) -> String {
    match sub.try_receive() {
        Received::Message(m) => m,
        _ => panic!("expected a message"),
    }
}

#[test]
fn annotation_is_exact() {
    assert_eq!(
        annotate("127.0.0.1:50000", "hello"),
        "Kezia's Computer - From server 127.0.0.1:50000 says: hello"
    );
    assert_eq!(annotate("", ""), "Kezia's Computer - From server  says: ");
}

#[test]
fn round_trip_hello_reaches_sender_and_peer() {
    let bus = Bus::new();
    let mut a = Handler::new("127.0.0.1:40001".to_string());
    let mut b = Handler::new("127.0.0.1:40002".to_string());
    let mut sub_a = bus.subscribe();
    let mut sub_b = bus.subscribe();

    let line = published(a.on_event(text("hello")));
    assert_eq!(bus.publish(line), Ok(2));

    let expected = "Kezia's Computer - From server 127.0.0.1:40001 says: hello";
    let to_b = bus_event(sub_b.try_receive()).unwrap();
    assert_eq!(sent(b.on_event(to_b)), expected);
    let to_a = bus_event(sub_a.try_receive()).unwrap();
    assert_eq!(sent(a.on_event(to_a)), expected);
    assert!(a.is_running() && b.is_running());
}

#[test]
fn earlier_subscriptions_see_each_message_and_later_ones_do_not() {
    let bus = Bus::new();
    let mut early = bus.subscribe();
    assert_eq!(bus.publish("one".to_string()), Ok(1));
    let mut late = bus.subscribe();
    assert_eq!(bus.publish("two".to_string()), Ok(2));

    assert_eq!(next_message(&mut early), "one");
    assert_eq!(next_message(&mut early), "two");
    assert!(matches!(early.try_receive(), Received::Empty));
    assert_eq!(next_message(&mut late), "two");
    assert!(matches!(late.try_receive(), Received::Empty));
}

#[test]
fn publish_without_subscriptions_hands_the_message_back() {
    let bus = Bus::new();
    assert_eq!(bus.publish("lost".to_string()), Err("lost".to_string()));
}

#[test]
fn publish_never_waits_on_a_stalled_subscription() {
    let bus = Bus::new();
    let mut stalled = bus.subscribe();
    for i in 0..10_000u32 {
        assert_eq!(bus.publish(format!("m{}", i)), Ok(1));
    }
    match stalled.try_receive() {
        Received::Lagged(n) => assert_eq!(n, 10_000 - BUS_CAPACITY as u64),
        _ => panic!("expected a lag"),
    }
    assert_eq!(next_message(&mut stalled), format!("m{}", 10_000 - BUS_CAPACITY));
}

#[test]
fn lag_resumes_with_the_next_surviving_message() {
    let bus = Bus::new();
    let mut h = Handler::new("127.0.0.1:40003".to_string());
    let mut sub = bus.subscribe();
    for i in 0..(BUS_CAPACITY + 3) {
        bus.publish(format!("m{}", i)).unwrap();
    }
    let ev = bus_event(sub.try_receive()).unwrap();
    assert!(matches!(ev, HandlerEvent::Lagged(3)));
    assert!(matches!(h.on_event(ev), HandlerAction::Ignore));
    assert_eq!(h.phase(), HandlerPhase::Running);
    let ev = bus_event(sub.try_receive()).unwrap();
    assert_eq!(sent(h.on_event(ev)), "m3");
}

#[test]
fn paused_subscriber_lags_on_two_pings_and_resumes() {
    let bus = Bus::new();
    let mut a = Handler::new("127.0.0.1:41001".to_string());
    let mut b = Handler::new("127.0.0.1:41002".to_string());
    let mut c = Handler::new("127.0.0.1:41003".to_string());
    let mut sub_a = bus.subscribe();
    let mut sub_b = bus.subscribe();
    let mut sub_c = bus.subscribe();

    for i in 0..BUS_CAPACITY {
        bus.publish(format!("earlier {}", i)).unwrap();
    }
    for _ in 0..BUS_CAPACITY {
        next_message(&mut sub_a);
        next_message(&mut sub_c);
    }
    for _ in 0..2 {
        let line = published(a.on_event(text("ping")));
        assert_eq!(bus.publish(line), Ok(3));
    }
    let ping = "Kezia's Computer - From server 127.0.0.1:41001 says: ping";
    for (h, sub) in [(&mut a, &mut sub_a), (&mut c, &mut sub_c)] {
        for _ in 0..2 {
            let ev = bus_event(sub.try_receive()).unwrap();
            assert_eq!(sent(h.on_event(ev)), ping);
        }
    }

    let ev = bus_event(sub_b.try_receive()).unwrap();
    assert!(matches!(ev, HandlerEvent::Lagged(2)));
    assert!(matches!(b.on_event(ev), HandlerAction::Ignore));
    assert!(b.is_running());
    let mut rest = Vec::new();
    while let Some(ev) = bus_event(sub_b.try_receive()) {
        rest.push(sent(b.on_event(ev)));
    }
    assert_eq!(rest.len(), BUS_CAPACITY);
    assert_eq!(rest[0], "earlier 2");
    assert_eq!(rest[BUS_CAPACITY - 2], ping);
    assert_eq!(rest[BUS_CAPACITY - 1], ping);
    assert!(b.is_running());
}

#[test]
fn closing_one_stream_ends_only_its_handler() {
    let bus = Bus::new();
    let mut a = Handler::new("127.0.0.1:42001".to_string());
    let mut b = Handler::new("127.0.0.1:42002".to_string());
    let sub_a = bus.subscribe();
    let mut sub_b = bus.subscribe();

    assert!(matches!(a.on_event(HandlerEvent::Inbound(Frame::Close)), HandlerAction::Close));
    assert_eq!(a.phase(), HandlerPhase::Closing);
    assert_eq!(a.finish(), Ok(()));
    assert_eq!(a.phase(), HandlerPhase::Terminated);
    drop(sub_a);

    let line = published(b.on_event(text("still here")));
    assert_eq!(bus.publish(line), Ok(1));
    let ev = bus_event(sub_b.try_receive()).unwrap();
    assert_eq!(
        sent(b.on_event(ev)),
        "Kezia's Computer - From server 127.0.0.1:42002 says: still here"
    );
    assert!(b.is_running());
    assert!(matches!(a.on_event(text("late")), HandlerAction::Ignore));
}

#[test]
fn handler_ends_on_each_terminal_event() {
    for ev in [HandlerEvent::InboundError, HandlerEvent::InboundEnd, HandlerEvent::BusClosed] {
        let mut h = Handler::new("x".to_string());
        assert!(matches!(h.on_event(ev), HandlerAction::Close));
        assert_eq!(h.phase(), HandlerPhase::Closing);
        assert_eq!(h.finish(), Ok(()));
    }
    let mut h = Handler::new("x".to_string());
    assert!(matches!(h.on_event(HandlerEvent::WriteFailed), HandlerAction::Close));
    assert_eq!(h.finish(), Err(HandlerError::WriteFailed));
    assert_eq!(h.phase(), HandlerPhase::Terminated);
}

#[test]
fn handler_ignores_other_frames() {
    let mut h = Handler::new("127.0.0.1:1".to_string());
    for f in [Frame::Binary, Frame::Ping, Frame::Pong] {
        assert!(matches!(h.on_event(HandlerEvent::Inbound(f)), HandlerAction::Ignore));
    }
    assert!(h.is_running());
    assert_eq!(h.addr(), "127.0.0.1:1");
}

#[test]
fn closed_bus_is_reported() {
    let bus = Bus::new();
    let mut sub = bus.subscribe();
    drop(bus);
    let ev = bus_event(sub.try_receive()).unwrap();
    assert!(matches!(ev, HandlerEvent::BusClosed));
}

#[test]
fn bus_handles_share_subscriptions() {
    let bus = Bus::new();
    let other = bus.handle();
    let mut sub = bus.subscribe();
    assert!(other.is_same_bus(&bus));
    assert!(bus.is_same_bus(&other));
    assert!(!Bus::new().is_same_bus(&bus));
    assert_eq!(other.publish("via handle".to_string()), Ok(1));
    assert_eq!(next_message(&mut sub), "via handle");
    drop(bus);
    assert!(matches!(sub.try_receive(), Received::Empty));
}

#[test]
fn failed_upgrade_leaves_acceptor_listening() {
    let mut acc = Acceptor::new();
    assert_eq!(acc.on_accept(AcceptEvent::Accepted), AcceptorAction::Spawn);
    assert_eq!(after_upgrade(false), TaskAction::End);
    assert_eq!(acc.phase(), AcceptorPhase::Listening);
    assert_eq!(acc.on_accept(AcceptEvent::Accepted), AcceptorAction::Spawn);
    assert_eq!(after_upgrade(true), TaskAction::RunHandler);
    assert_eq!(acc.phase(), AcceptorPhase::Listening);
}

#[test]
fn failed_accept_is_fatal() {
    let mut acc = Acceptor::new();
    assert_eq!(acc.on_accept(AcceptEvent::AcceptFailed), AcceptorAction::Fatal);
    assert_eq!(acc.phase(), AcceptorPhase::Failed);
    assert_eq!(acc.on_accept(AcceptEvent::Accepted), AcceptorAction::Ignore);
}

#[test]
fn client_relays_both_ways() {
    let mut c = ClientLoop::new();
    match c.on_event(ClientEvent::Line("hi".to_string())) {
        ClientAction::SendText(l) => assert_eq!(l, "hi"),
        _ => panic!("expected a send"),
    }
    match c.on_event(ClientEvent::Remote(Frame::Text("there".to_string()))) {
        ClientAction::Print(l) => assert_eq!(l, "there"),
        _ => panic!("expected a print"),
    }
    assert!(matches!(c.on_event(ClientEvent::Remote(Frame::Ping)), ClientAction::Ignore));
    assert!(matches!(c.on_event(ClientEvent::Remote(Frame::Binary)), ClientAction::Ignore));
    assert_eq!(c.phase(), ClientPhase::Running);
    assert!(matches!(c.on_event(ClientEvent::InputEnd), ClientAction::Stop));
    assert_eq!(c.phase(), ClientPhase::Terminated);
    assert_eq!(c.outcome(), Ok(()));
    assert!(matches!(c.on_event(ClientEvent::Line("late".to_string())), ClientAction::Ignore));
}

#[test]
fn client_stops_on_each_terminal_event() {
    for ev in [
        ClientEvent::InputError,
        ClientEvent::RemoteError,
        ClientEvent::RemoteEnd,
        ClientEvent::Remote(Frame::Close),
    ] {
        let mut c = ClientLoop::new();
        assert!(matches!(c.on_event(ev), ClientAction::Stop));
        assert_eq!(c.outcome(), Ok(()));
    }
    let mut c = ClientLoop::new();
    assert!(matches!(c.on_event(ClientEvent::SendFailed), ClientAction::Stop));
    assert_eq!(c.outcome(), Err(ClientError::SendFailed));
}

#[test]
fn endpoint_addresses() {
    let e = Endpoint::local();
    assert_eq!(e.authority(), "127.0.0.1:8080");
    assert_eq!(e.ws_uri(), "ws://127.0.0.1:8080");
    assert_eq!(Endpoint::new("0.0.0.0".to_string(), 0).authority(), "0.0.0.0:0");
    assert_eq!(Endpoint::new("h".to_string(), 65535).ws_uri(), "ws://h:65535");
    let mut s = "port ".to_string();
    push_decimal(&mut s, 10);
    assert_eq!(s, "port 10");
}
