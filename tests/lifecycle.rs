use http_lifecycle::coordinator::{Coordinator, CoordinatorPhase, StopReason};
use http_lifecycle::handler::hello;
use http_lifecycle::pinned::MyEnum;
use http_lifecycle::registry::Registry;
use http_lifecycle::signal::{ShutdownSignal, SignalState};

#[test]
fn hello_world_reply() {
    let r = hello();
    assert_eq!(r.status, 200);
    assert_eq!(r.body, b"Hello, World!".to_vec());
}

#[test]
fn registry_holds_handles_while_live() {
    let mut reg = Registry::new();
    assert!(reg.is_empty());
    let a = reg.register().unwrap();
    let b = reg.register().unwrap();
    assert_ne!(a.id(), b.id());
    assert!(reg.contains(&a));
    assert!(reg.contains(&b));
    assert_eq!(reg.len(), 2);
    let a_id = a.id();
    assert!(reg.unregister(a));
    assert_eq!(reg.len(), 1);
    assert!(reg.contains(&b));
    let c = reg.register().unwrap();
    assert_ne!(c.id(), a_id);
    assert!(reg.unregister(b));
    assert!(reg.unregister(c));
    assert!(reg.is_empty());
}

#[test]
fn handle_with_unknown_id_is_not_live() {
    let mut reg = Registry::new();
    let mut other = Registry::new();
    let _ = other.register().unwrap();
    let h = other.register().unwrap();
    assert!(!reg.contains(&h));
    assert!(!reg.unregister(h));
    assert!(reg.is_empty());
}

#[test]
fn signal_switches_once() {
    let mut s = ShutdownSignal::new();
    assert_eq!(s.state(), SignalState::Running);
    assert!(!s.is_shutting_down());
    assert!(s.trigger());
    assert!(!s.trigger());
    assert!(!s.trigger());
    assert_eq!(s.state(), SignalState::ShuttingDown);
    assert!(s.is_shutting_down());
}

#[test]
fn shutdown_with_no_connections_stops_at_once() {
    let mut c = Coordinator::new();
    assert!(c.on_trigger());
    assert_eq!(c.phase(), CoordinatorPhase::Stopped);
    assert_eq!(c.stop_reason(), Some(StopReason::Drained));
    assert!(!c.on_trigger());
    assert_eq!(c.on_grace_elapsed(), None);
}

#[test]
fn fifty_in_flight_drain_before_grace() {
    let mut c = Coordinator::new();
    let mut handles = Vec::new();
    for _ in 0..50 {
        handles.push(c.on_accept().unwrap());
    }
    assert_eq!(c.live_count(), 50);
    assert!(c.on_trigger());
    assert!(c.is_shutting_down());
    assert_eq!(c.phase(), CoordinatorPhase::Draining);
    // no new connection once draining
    assert!(c.on_accept().is_none());
    let last = handles.pop().unwrap();
    for h in handles {
        c.on_connection_done(h);
        assert_eq!(c.phase(), CoordinatorPhase::Draining);
    }
    assert_eq!(c.live_count(), 1);
    c.on_connection_done(last);
    assert_eq!(c.live_count(), 0);
    assert_eq!(c.phase(), CoordinatorPhase::Stopped);
    assert_eq!(c.stop_reason(), Some(StopReason::Drained));
    // the grace timer firing afterwards changes nothing
    assert_eq!(c.on_grace_elapsed(), None);
    assert_eq!(c.stop_reason(), Some(StopReason::Drained));
}

#[test]
fn stalled_connection_times_out() {
    let mut c = Coordinator::new();
    let fast = c.on_accept().unwrap();
    let stalled = c.on_accept().unwrap();
    assert!(c.on_trigger());
    c.on_connection_done(fast);
    assert_eq!(c.phase(), CoordinatorPhase::Draining);
    assert_eq!(c.on_grace_elapsed(), Some(StopReason::TimedOut(1)));
    assert_eq!(c.phase(), CoordinatorPhase::Stopped);
    assert_eq!(c.stop_reason(), Some(StopReason::TimedOut(1)));
    // a straggler finishing late leaves the outcome as it was
    c.on_connection_done(stalled);
    assert_eq!(c.live_count(), 0);
    assert_eq!(c.stop_reason(), Some(StopReason::TimedOut(1)));
}

#[test]
fn accept_while_running() {
    let mut c = Coordinator::new();
    assert_eq!(c.phase(), CoordinatorPhase::Running);
    let h = c.on_accept().unwrap();
    assert_eq!(c.live_count(), 1);
    c.on_connection_done(h);
    assert_eq!(c.live_count(), 0);
    assert_eq!(c.phase(), CoordinatorPhase::Running);
}

#[test]
fn enum_field_access() {
    let mut e = MyEnum::Variant1 { field1: String::from("Hello, enum!") };
    let f = e.get_field1().unwrap();
    assert_eq!(f.as_str(), "Hello, enum!");
    f.push_str(" again");
    match &e {
        MyEnum::Variant1 { field1 } => assert_eq!(field1.as_str(), "Hello, enum! again"),
        MyEnum::Variant2 { .. } => panic!("wrong variant"),
    }
    let mut e2 = MyEnum::Variant2 { field2: 7 };
    assert!(e2.get_field1().is_none());
}
