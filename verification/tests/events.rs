use service_core::codec::DecodeError;
use service_core::dispatch::{
    Envelope, EnvelopeKind, HandlerRef, InvocationOutcome, Outbound,
};
use service_core::greeter::greeter_broker;
use service_core::handlers::HandlerError;
use service_core::registry::{Broker, Event, EventHandler, Service};
use service_core::value::{Field, Scalar, Value};

fn obj(fields: Vec<(&str, Scalar)>) -> Value {
    Value::Obj(
        fields
            .into_iter()
            .map(|(k, v)| Field { key: k.to_string(), value: v })
            .collect(),
    )
}

fn broadcast(target: &str, payload: Value) -> Envelope {
    Envelope {
        target: target.to_string(),
        sender: "caller-1".to_string(),
        payload,
        kind: EnvelopeKind::Broadcast,
    }
}

fn balanced(target: &str, payload: Value, slot: u64) -> Envelope {
    Envelope {
        target: target.to_string(),
        sender: "caller-1".to_string(),
        payload,
        kind: EnvelopeKind::Balanced { slot },
    }
}

/// A broker with two handlers subscribed to `emitHi`.
fn two_handler_broker() -> Broker {
    let mut s = Service::new("pair".to_string());
    s.add_event(Event::new("emitHi".to_string(), EventHandler::EmitHi));
    s.add_event(Event::new("emitHi".to_string(), EventHandler::EmitHi));
    let mut b = Broker::new();
    b.add_service(s).unwrap();
    b
}

#[test]
fn broadcast_reaches_both_handlers_once() {
    let b = two_handler_broker();
    let r = b.deliver(&broadcast("emitHi", obj(vec![])));
    // Both handlers observe exactly one invocation, with the empty payload.
    assert_eq!(r.invocations.len(), 2);
    for inv in &r.invocations {
        assert_eq!(inv.handler, HandlerRef::Event(EventHandler::EmitHi));
        assert_eq!(inv.params, obj(vec![]));
        assert_eq!(inv.outcome, InvocationOutcome::Completed);
    }
    // Each invocation emitted one `test` event with an empty payload.
    assert_eq!(
        r.outbound,
        vec![
            Outbound::Emit { event: "test".to_string(), payload: obj(vec![]) },
            Outbound::Emit { event: "test".to_string(), payload: obj(vec![]) },
        ]
    );
}

#[test]
fn balanced_event_reaches_exactly_one() {
    let b = two_handler_broker();
    let r = b.deliver(&balanced("emitHi", obj(vec![]), 0));
    assert_eq!(r.invocations.len(), 1);
    assert_eq!(r.outbound.len(), 1);
    let r2 = b.deliver(&balanced("emitHi", obj(vec![]), 5));
    // The selector wraps over the two subscribed handlers.
    assert_eq!(r2.invocations.len(), 1);
}

#[test]
fn balanced_event_without_subscribers_is_dropped() {
    let b = two_handler_broker();
    let r = b.deliver(&balanced("nothingHere", obj(vec![]), 3));
    assert!(r.invocations.is_empty());
    assert!(r.outbound.is_empty());
}

#[test]
fn broadcast_without_subscribers_is_not_an_error() {
    let b = greeter_broker();
    let r = b.deliver(&broadcast("nobodyListens", obj(vec![])));
    assert!(r.invocations.is_empty());
    assert!(r.outbound.is_empty());
}

#[test]
fn failing_sibling_does_not_stop_others() {
    let mut s = Service::new("mixed".to_string());
    s.add_event(Event::new("boom".to_string(), EventHandler::AlwaysFail));
    s.add_event(Event::new("boom".to_string(), EventHandler::EmitHi));
    let mut b = Broker::new();
    b.add_service(s).unwrap();

    let r = b.deliver(&broadcast("boom", obj(vec![])));
    assert_eq!(r.invocations.len(), 2);
    assert_eq!(
        r.invocations[0].outcome,
        InvocationOutcome::Failed(HandlerError::Rejected)
    );
    // The sibling still ran and produced its effect.
    assert_eq!(r.invocations[1].outcome, InvocationOutcome::Completed);
    assert_eq!(
        r.outbound,
        vec![Outbound::Emit { event: "test".to_string(), payload: obj(vec![]) }]
    );
}

#[test]
fn event_bad_payload_invokes_nothing_and_replies_nothing() {
    let b = greeter_broker();
    let r = b.deliver(&broadcast("broadcastName", obj(vec![("name", Scalar::Int(42))])));
    assert_eq!(r.invocations.len(), 1);
    assert_eq!(
        r.invocations[0].outcome,
        InvocationOutcome::NotDecoded(DecodeError::WrongType("name".to_string()))
    );
    // No reply and no effect: the envelope is dropped.
    assert!(r.outbound.is_empty());
}

#[test]
fn broadcast_name_rebroadcasts_the_name() {
    let b = greeter_broker();
    let r = b.deliver(&broadcast(
        "broadcastName",
        obj(vec![("name", Scalar::Str("Ada".to_string()))]),
    ));
    assert_eq!(r.invocations.len(), 1);
    assert_eq!(r.invocations[0].outcome, InvocationOutcome::Completed);
    assert_eq!(
        r.outbound,
        vec![Outbound::Broadcast {
            event: "testWithParam".to_string(),
            payload: obj(vec![("name", Scalar::Str("Ada".to_string()))]),
        }]
    );
}

#[test]
fn emit_hi_accepts_any_payload() {
    let b = greeter_broker();
    let r = b.deliver(&broadcast("emitHi", Value::Scalar(Scalar::Null)));
    assert_eq!(r.invocations.len(), 1);
    assert_eq!(r.invocations[0].outcome, InvocationOutcome::Completed);
    assert_eq!(
        r.outbound,
        vec![Outbound::Emit { event: "test".to_string(), payload: obj(vec![]) }]
    );
}

#[test]
fn events_never_reply() {
    let b = greeter_broker();
    for env in [
        broadcast("emitHi", obj(vec![])),
        broadcast("broadcastName", obj(vec![])),
        balanced("emitHi", obj(vec![]), 2),
    ] {
        let r = b.deliver(&env);
        assert!(r
            .outbound
            .iter()
            .all(|o| !matches!(o, Outbound::Reply { .. })));
    }
}
