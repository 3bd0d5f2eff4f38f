use amqp_rs::bridge::{Bridge, ContextToken, HandlerRef, LifecycleState};
use amqp_rs::errors::ErrorKind;
use amqp_rs::message::Message;
use amqp_rs::outcome::Mode;

fn handler(id: u64) -> HandlerRef {
    HandlerRef { id }
}

fn context(id: u64) -> ContextToken {
    ContextToken { id }
}

fn message(body: &[u8]) -> Message {
    Message { body: body.to_vec(), content_type: None }
}

#[test]
fn dispose_twice_returns_success_both_times() {
    let mut b = Bridge::new();
    assert!(b.dispose().is_ok());
    assert!(matches!(b.state, LifecycleState::Disposed));
    assert!(b.dispose().is_ok());
    assert!(matches!(b.state, LifecycleState::Disposed));
}

#[test]
fn registration_after_dispose_fails_fast() {
    let mut b = Bridge::new();
    assert!(b.dispose().is_ok());
    let r = b.subscribe(
        "exchange".to_string(),
        "key".to_string(),
        handler(1),
        context(1),
        None,
        Some(16),
    );
    match r {
        Err(e) => assert!(matches!(e.error_type, ErrorKind::UnexpectedResultError)),
        Ok(()) => panic!("registration after dispose must fail"),
    }
    assert_eq!(b.registrations.len(), 0);

    let p = b.provide_resource("key".to_string(), handler(2), context(1), None, None);
    match p {
        Err(e) => assert!(matches!(e.error_type, ErrorKind::UnexpectedResultError)),
        Ok(()) => panic!("registration after dispose must fail"),
    }
}

#[test]
fn registration_records_what_was_given() {
    let mut b = Bridge::new();
    assert!(b
        .subscribe(
            "amq.topic".to_string(),
            "orders.created".to_string(),
            handler(7),
            context(3),
            Some(5),
            Some(16),
        )
        .is_ok());
    assert!(b
        .provide_resource("orders.lookup".to_string(), handler(8), context(3), None, Some(32))
        .is_ok());
    assert_eq!(b.registrations.len(), 2);

    let sub = &b.registrations[0];
    assert_eq!(sub.exchange_name.as_deref(), Some("amq.topic"));
    assert_eq!(sub.routing_key, "orders.created");
    assert!(matches!(sub.mode, Mode::Subscribe));
    assert_eq!(sub.handler.id, 7);
    assert_eq!(sub.context.id, 3);
    assert_eq!(sub.process_timeout, Some(5));
    // The command timeout is accepted and forwarded unchanged.
    assert_eq!(sub.command_timeout, Some(16));

    let rr = &b.registrations[1];
    assert!(rr.exchange_name.is_none());
    assert!(matches!(rr.mode, Mode::RequestResponse));
    assert_eq!(rr.command_timeout, Some(32));
}

#[test]
fn dispatch_admission_follows_the_lifecycle() {
    let mut b = Bridge::new();
    assert!(b
        .subscribe("e".to_string(), "k".to_string(), handler(1), context(1), Some(9), None)
        .is_ok());

    let d = b.begin_dispatch(0, message(b"hello")).expect("active bridge admits dispatches");
    assert!(matches!(d.mode, Mode::Subscribe));
    // The dispatch carries the token captured at registration.
    assert_eq!(d.context.id, 1);
    assert_eq!(d.process_timeout, Some(9));
    assert_eq!(d.message.body, b"hello".to_vec());
    assert_eq!(b.pending, 1);

    // dispose with one dispatch in flight: drain first, dispose when done.
    assert!(b.dispose().is_ok());
    assert!(matches!(b.state, LifecycleState::Draining));

    match b.begin_dispatch(0, message(b"late")) {
        Err(e) => assert!(matches!(e.error_type, ErrorKind::UnexpectedResultError)),
        Ok(_) => panic!("a draining bridge admits no new dispatch"),
    }

    b.dispatch_resolved();
    assert!(matches!(b.state, LifecycleState::Disposed));
    assert_eq!(b.pending, 0);
    assert_eq!(b.registrations.len(), 0);
}

#[test]
fn idle_dispose_skips_draining() {
    let mut b = Bridge::new();
    assert!(b
        .subscribe("e".to_string(), "k".to_string(), handler(1), context(1), None, None)
        .is_ok());
    assert!(b.dispose().is_ok());
    assert!(matches!(b.state, LifecycleState::Disposed));
    assert_eq!(b.registrations.len(), 0);
}

#[test]
fn grace_period_forces_disposal() {
    let mut b = Bridge::new();
    assert!(b
        .subscribe("e".to_string(), "k".to_string(), handler(1), context(1), None, None)
        .is_ok());
    let _ = b.begin_dispatch(0, message(b"slow")).expect("admitted");
    let _ = b.begin_dispatch(0, message(b"slower")).expect("admitted");
    assert!(b.dispose().is_ok());
    assert!(matches!(b.state, LifecycleState::Draining));

    b.grace_elapsed();
    assert!(matches!(b.state, LifecycleState::Disposed));
    assert_eq!(b.pending, 0);
    assert_eq!(b.registrations.len(), 0);
    assert!(b.dispose().is_ok());
}

#[test]
fn resolving_while_active_keeps_the_bridge_active() {
    let mut b = Bridge::new();
    assert!(b
        .subscribe("e".to_string(), "k".to_string(), handler(1), context(1), None, None)
        .is_ok());
    let _ = b.begin_dispatch(0, message(b"m")).expect("admitted");
    b.dispatch_resolved();
    assert!(matches!(b.state, LifecycleState::Active));
    assert_eq!(b.pending, 0);
    assert_eq!(b.registrations.len(), 1);
}
