use amqp_rs::bridge::ContextToken;
use amqp_rs::dispatch::{Dispatch, DispatchState};
use amqp_rs::errors::ErrorKind;
use amqp_rs::message::Message;
use amqp_rs::outcome::{DispatchOutcome, ForeignCompletion, ForeignValue, Mode, Output};
use amqp_rs::translate::{extract_bytes, translate};

fn message(body: &[u8]) -> Message {
    Message { body: body.to_vec(), content_type: Some("application/json".to_string()) }
}

fn token() -> ContextToken {
    ContextToken { id: 1 }
}

#[test]
fn subscribe_hello_invoked_once_and_succeeds() {
    // Subscribe handler always succeeds; body "hello": the handler is
    // invoked exactly once with body "hello" and the engine sees Success(()).
    let mut d = Dispatch::new(Mode::Subscribe, message(b"hello"), token(), None);
    assert!(matches!(d.state, DispatchState::Admitted));
    assert_eq!(d.invocations, 0);

    let handed = d.invoke();
    assert_eq!(handed.body, b"hello".to_vec());
    assert_eq!(d.invocations, 1);
    assert!(matches!(d.state, DispatchState::Invoked));

    let outcome = d.complete(ForeignCompletion::Resolved(ForeignValue::Unit));
    match outcome {
        Some(DispatchOutcome::Success(Output::Unit)) => {}
        _ => panic!("subscribe dispatch must succeed with unit"),
    }
    assert_eq!(d.invocations, 1);
    assert!(matches!(d.state, DispatchState::Resolved));
}

#[test]
fn request_response_bytes_round_trip() {
    // The bytes returned to the caller equal exactly the handler's bytes.
    let mut d = Dispatch::new(Mode::RequestResponse, message(b"query"), token(), None);
    let _ = d.invoke();
    let produced = vec![0u8, 159, 146, 150];
    let outcome = d.complete(ForeignCompletion::Resolved(ForeignValue::Bytes(produced.clone())));
    match outcome {
        Some(DispatchOutcome::Success(Output::Bytes(b))) => assert_eq!(b, produced),
        _ => panic!("byte-producing handler must succeed with its bytes"),
    }
}

#[test]
fn request_response_wrapper_body_round_trip() {
    // Bytes may also arrive through a message wrapper's body field.
    let mut d = Dispatch::new(Mode::RequestResponse, message(b"query"), token(), None);
    let _ = d.invoke();
    let reply = Message { body: vec![42u8, 7], content_type: None };
    let outcome = d.complete(ForeignCompletion::Resolved(ForeignValue::MessageValue(reply)));
    match outcome {
        Some(DispatchOutcome::Success(Output::Bytes(b))) => assert_eq!(b, vec![42u8, 7]),
        _ => panic!("wrapper-producing handler must succeed with the body bytes"),
    }
}

#[test]
fn request_response_text_world_is_invalid_output() {
    // Handler returns the text value "world" instead of bytes: the outcome
    // is Failure(InvalidHandlerOutput) and the caller never sees "world".
    let mut d = Dispatch::new(Mode::RequestResponse, message(b"query"), token(), None);
    let _ = d.invoke();
    let outcome = d.complete(ForeignCompletion::Resolved(ForeignValue::Text("world".to_string())));
    match outcome {
        Some(DispatchOutcome::Failure(e)) => {
            assert!(matches!(e.error_type, ErrorKind::InvalidHandlerOutput));
        }
        _ => panic!("a non-byte value must be rejected, never coerced"),
    }
}

#[test]
fn rejected_handler_is_handler_failed() {
    let mut d = Dispatch::new(Mode::Subscribe, message(b"hello"), token(), None);
    let _ = d.invoke();
    let outcome = d.complete(ForeignCompletion::Rejected("boom".to_string()));
    match outcome {
        Some(DispatchOutcome::Failure(e)) => {
            assert!(matches!(e.error_type, ErrorKind::HandlerFailed));
            assert_eq!(e.message.as_deref(), Some("boom"));
        }
        _ => panic!("a rejection must surface as HandlerFailed"),
    }
}

#[test]
fn timeout_resolves_and_late_completion_is_discarded() {
    // Handler never completes; process_timeout of one second: the outcome
    // is Failure(Timeout), and the handler's eventual completion has no
    // observable effect.
    let mut d = Dispatch::new(Mode::RequestResponse, message(b"query"), token(), Some(1));
    let _ = d.invoke();
    let outcome = d.elapsed();
    match outcome {
        Some(DispatchOutcome::Failure(e)) => assert!(matches!(e.error_type, ErrorKind::Timeout)),
        _ => panic!("an elapsed deadline must resolve with Timeout"),
    }
    assert!(matches!(d.state, DispatchState::Resolved));

    let late = d.complete(ForeignCompletion::Resolved(ForeignValue::Bytes(vec![1u8])));
    assert!(late.is_none());
    assert!(matches!(d.state, DispatchState::Resolved));
    assert_eq!(d.invocations, 1);
}

#[test]
fn no_deadline_means_no_timeout() {
    let mut d = Dispatch::new(Mode::Subscribe, message(b"hello"), token(), None);
    let _ = d.invoke();
    assert!(d.elapsed().is_none());
    assert!(matches!(d.state, DispatchState::Invoked));
    let outcome = d.complete(ForeignCompletion::Resolved(ForeignValue::Unit));
    assert!(matches!(outcome, Some(DispatchOutcome::Success(Output::Unit))));
}

#[test]
fn unreachable_runtime_is_bridge_unavailable() {
    let mut d = Dispatch::new(Mode::Subscribe, message(b"hello"), token(), None);
    let outcome = d.unreachable_context("event loop closed".to_string());
    match outcome {
        Some(DispatchOutcome::Failure(e)) => {
            assert!(matches!(e.error_type, ErrorKind::BridgeUnavailable));
            assert_eq!(e.message.as_deref(), Some("event loop closed"));
        }
        _ => panic!("an unreachable runtime must surface as BridgeUnavailable"),
    }
    assert_eq!(d.invocations, 0);
}

#[test]
fn subscribe_mode_ignores_the_returned_value() {
    let outcome = translate(
        Mode::Subscribe,
        ForeignCompletion::Resolved(ForeignValue::Text("ignored".to_string())),
    );
    assert!(matches!(outcome, DispatchOutcome::Success(Output::Unit)));
}

#[test]
fn extract_bytes_accepts_only_byte_shapes() {
    assert_eq!(extract_bytes(ForeignValue::Bytes(vec![1, 2])), Some(vec![1, 2]));
    let wrapped = ForeignValue::MessageValue(Message { body: vec![3], content_type: None });
    assert_eq!(extract_bytes(wrapped), Some(vec![3]));
    assert_eq!(extract_bytes(ForeignValue::Unit), None);
    assert_eq!(extract_bytes(ForeignValue::Text("x".to_string())), None);
    assert_eq!(extract_bytes(ForeignValue::Other("dict".to_string())), None);
}

#[test]
fn dispatch_keeps_its_registration_token() {
    // The handler runs under the execution-context token captured at
    // registration; the dispatch carries it unchanged through its life.
    let mut d = Dispatch::new(Mode::Subscribe, message(b"hello"), ContextToken { id: 42 }, None);
    assert_eq!(d.context.id, 42);
    let _ = d.invoke();
    assert_eq!(d.context.id, 42);
    let _ = d.complete(ForeignCompletion::Resolved(ForeignValue::Unit));
    assert_eq!(d.context.id, 42);
}
