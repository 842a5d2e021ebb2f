use telemetry_agent::event_bus::{Event, EventBus, EventKind, Reading, RecvResult, BUS_CAPACITY};
use telemetry_agent::module::ModuleCtx;

fn msg_event(module: &str, text: &str) -> Event {
    Event { module: module.to_string(), inner: EventKind::Message(text.to_string()) }
}

fn recv_message(bus: &mut EventBus, id: usize) -> (String, String) {
    match bus.recv(id) {
        RecvResult::Received(e) => match e.inner {
            EventKind::Message(m) => (e.module, m),
            EventKind::Reading(r) => panic!("expected a message, got reading {}", r.name),
        },
        RecvResult::Empty => panic!("expected an event, bus was empty"),
        RecvResult::Lagged(n) => panic!("expected an event, lagged by {}", n),
    }
}

#[test]
fn fan_out_equality() {
    let mut bus = EventBus::new();
    let a = bus.subscribe();
    let b = bus.subscribe();
    let c = bus.subscribe();
    bus.publish(msg_event("m", "one"));
    bus.publish(msg_event("m", "two"));
    for id in [a, b, c] {
        let (from1, text1) = recv_message(&mut bus, id);
        let (from2, text2) = recv_message(&mut bus, id);
        assert_eq!(from1, "m");
        assert_eq!(text1, "one");
        assert_eq!(from2, "m");
        assert_eq!(text2, "two");
        // exactly once: nothing further is delivered
        assert!(matches!(bus.recv(id), RecvResult::Empty));
    }
}

#[test]
fn no_replay() {
    let mut bus = EventBus::new();
    bus.publish(msg_event("m", "before"));
    let late = bus.subscribe();
    assert!(matches!(bus.recv(late), RecvResult::Empty));
    bus.publish(msg_event("m", "after"));
    let (_, text) = recv_message(&mut bus, late);
    assert_eq!(text, "after");
    assert!(matches!(bus.recv(late), RecvResult::Empty));
}

#[test]
fn lag_resilience_default_capacity() {
    let mut bus = EventBus::new();
    let slow = bus.subscribe();
    let n = BUS_CAPACITY + 5;
    for k in 0..n {
        bus.publish(msg_event("m", &format!("{}", k)));
    }
    // 105 events, window of 100: the first read reports 5 skipped events
    match bus.recv(slow) {
        RecvResult::Lagged(skipped) => assert_eq!(skipped, 5),
        _ => panic!("expected a lag report"),
    }
    // then delivery resumes with the oldest retained event, in order
    for k in 5..n {
        let (_, text) = recv_message(&mut bus, slow);
        assert_eq!(text, format!("{}", k));
    }
    assert!(matches!(bus.recv(slow), RecvResult::Empty));
}

#[test]
fn lag_then_uninterrupted_delivery() {
    let mut bus = EventBus::with_capacity(2);
    let slow = bus.subscribe();
    bus.publish(msg_event("m", "0"));
    bus.publish(msg_event("m", "1"));
    bus.publish(msg_event("m", "2"));
    match bus.recv(slow) {
        RecvResult::Lagged(skipped) => assert_eq!(skipped, 1),
        _ => panic!("expected a lag report"),
    }
    let (_, t1) = recv_message(&mut bus, slow);
    let (_, t2) = recv_message(&mut bus, slow);
    assert_eq!(t1, "1");
    assert_eq!(t2, "2");
    bus.publish(msg_event("m", "3"));
    let (_, t3) = recv_message(&mut bus, slow);
    assert_eq!(t3, "3");
}

#[test]
fn publish_with_no_subscribers_is_noop() {
    let mut bus = EventBus::new();
    bus.publish(msg_event("m", "nobody listens"));
    let late = bus.subscribe();
    assert!(matches!(bus.recv(late), RecvResult::Empty));
}

#[test]
fn default_bus_behaves_like_new() {
    let mut bus = EventBus::default();
    assert_eq!(bus.subscriber_count(), 0);
    let id = bus.subscribe();
    assert_eq!(bus.subscriber_count(), 1);
    bus.publish(msg_event("m", "x"));
    let (_, text) = recv_message(&mut bus, id);
    assert_eq!(text, "x");
}

#[test]
fn module_ctx_stamps_events() {
    let mut bus = EventBus::new();
    let listener = bus.subscribe();
    let ctx = ModuleCtx::new("network", &mut bus);
    ctx.send_message(&mut bus, "5 seconds has passed".to_string());
    let (from, text) = recv_message(&mut bus, listener);
    assert_eq!(from, "network");
    assert_eq!(text, "5 seconds has passed");
}

#[test]
fn module_ctx_sends_readings_and_receives() {
    let mut bus = EventBus::new();
    let logger = ModuleCtx::new("logger", &mut bus);
    let monitor = ModuleCtx::new("monitoring", &mut bus);
    let reading = Reading {
        time: 17,
        name: "CPU Usage".to_string(),
        value_bits: 42.5f32.to_bits(),
        unit: "%".to_string(),
        category: "computer".to_string(),
    };
    monitor.send_reading(&mut bus, reading);
    match logger.recv(&mut bus) {
        RecvResult::Received(e) => {
            assert_eq!(e.module, "monitoring");
            match e.inner {
                EventKind::Reading(r) => {
                    assert_eq!(r.time, 17);
                    assert_eq!(r.name, "CPU Usage");
                    assert_eq!(f32::from_bits(r.value_bits), 42.5);
                    assert_eq!(r.unit, "%");
                    assert_eq!(r.category, "computer");
                }
                EventKind::Message(m) => panic!("expected a reading, got message {}", m),
            }
        }
        _ => panic!("expected the reading to arrive"),
    }
    // the producer's own subscription sees its event too
    assert!(matches!(monitor.recv(&mut bus), RecvResult::Received(_)));
}

#[test]
fn interleaved_subscribers_each_get_their_suffix() {
    let mut bus = EventBus::new();
    let early = bus.subscribe();
    bus.publish(msg_event("m", "a"));
    let late = bus.subscribe();
    bus.publish(msg_event("m", "b"));
    let (_, e1) = recv_message(&mut bus, early);
    let (_, e2) = recv_message(&mut bus, early);
    assert_eq!((e1.as_str(), e2.as_str()), ("a", "b"));
    let (_, l1) = recv_message(&mut bus, late);
    assert_eq!(l1, "b");
    assert!(matches!(bus.recv(late), RecvResult::Empty));
}
