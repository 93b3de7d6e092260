use service_core::codec::DecodeError;
use service_core::dispatch::{
    DispatchError, Envelope, EnvelopeKind, HandlerRef, InvocationOutcome, Outbound, ReplyBody,
};
use service_core::greeter::greeter_broker;
use service_core::handlers::HandlerError;
use service_core::registry::ActionHandler;
use service_core::value::{Field, Scalar, Value};

fn obj(fields: Vec<(&str, Scalar)>) -> Value {
    Value::Obj(
        fields
            .into_iter()
            .map(|(k, v)| Field { key: k.to_string(), value: v })
            .collect(),
    )
}

fn request(target: &str, payload: Value, cid: u64) -> Envelope {
    Envelope {
        target: target.to_string(),
        sender: "caller-1".to_string(),
        payload,
        kind: EnvelopeKind::Request { correlation_id: cid },
    }
}

#[test]
fn add_computes_sum() {
    let b = greeter_broker();
    let payload = obj(vec![("a", Scalar::Int(3)), ("b", Scalar::Int(4))]);
    let r = b.deliver(&request("add", payload, 7));
    assert_eq!(
        r.outbound,
        vec![Outbound::Reply {
            correlation_id: 7,
            body: ReplyBody::Success(Value::Scalar(Scalar::Int(7))),
        }]
    );
    assert_eq!(r.invocations.len(), 1);
    assert_eq!(r.invocations[0].handler, HandlerRef::Action(ActionHandler::Add));
    assert_eq!(r.invocations[0].outcome, InvocationOutcome::Completed);
}

#[test]
fn add_wrong_type_is_bad_payload() {
    let b = greeter_broker();
    let payload = obj(vec![("a", Scalar::Str("x".to_string())), ("b", Scalar::Int(4))]);
    let r = b.deliver(&request("add", payload, 8));
    assert_eq!(
        r.outbound,
        vec![Outbound::Reply {
            correlation_id: 8,
            body: ReplyBody::Error(DispatchError::BadPayload(DecodeError::WrongType(
                "a".to_string()
            ))),
        }]
    );
    // The handler is never invoked on a malformed payload.
    assert!(r.invocations.is_empty());
}

#[test]
fn add_missing_field_is_bad_payload() {
    let b = greeter_broker();
    let r = b.deliver(&request("add", obj(vec![("b", Scalar::Int(4))]), 9));
    assert_eq!(
        r.outbound,
        vec![Outbound::Reply {
            correlation_id: 9,
            body: ReplyBody::Error(DispatchError::BadPayload(DecodeError::MissingField(
                "a".to_string()
            ))),
        }]
    );
    assert!(r.invocations.is_empty());
}

#[test]
fn scalar_payload_is_not_an_object() {
    let b = greeter_broker();
    let r = b.deliver(&request("add", Value::Scalar(Scalar::Int(5)), 10));
    assert_eq!(
        r.outbound,
        vec![Outbound::Reply {
            correlation_id: 10,
            body: ReplyBody::Error(DispatchError::BadPayload(DecodeError::NotAnObject)),
        }]
    );
}

#[test]
fn unknown_action_is_not_found() {
    let b = greeter_broker();
    let r = b.deliver(&request("divide", obj(vec![]), 11));
    assert_eq!(
        r.outbound,
        vec![Outbound::Reply {
            correlation_id: 11,
            body: ReplyBody::Error(DispatchError::NotFound),
        }]
    );
    assert!(r.invocations.is_empty());
}

#[test]
fn add_overflow_is_handler_failure() {
    let b = greeter_broker();
    let payload = obj(vec![("a", Scalar::Int(i64::MAX)), ("b", Scalar::Int(1))]);
    let r = b.deliver(&request("add", payload, 12));
    assert_eq!(
        r.outbound,
        vec![Outbound::Reply {
            correlation_id: 12,
            body: ReplyBody::Error(DispatchError::HandlerFailure(HandlerError::Overflow)),
        }]
    );
    assert_eq!(r.invocations.len(), 1);
    assert_eq!(
        r.invocations[0].outcome,
        InvocationOutcome::Failed(HandlerError::Overflow)
    );
}

#[test]
fn squared_sum_computes() {
    let b = greeter_broker();
    let payload = obj(vec![("arr", Scalar::IntArr(vec![1, 2, 3]))]);
    let r = b.deliver(&request("squaredSum", payload, 13));
    assert_eq!(
        r.outbound,
        vec![Outbound::Reply {
            correlation_id: 13,
            body: ReplyBody::Success(Value::Scalar(Scalar::Int(14))),
        }]
    );
    assert_eq!(
        r.invocations[0].handler,
        HandlerRef::Action(ActionHandler::SquaredSum)
    );
}

#[test]
fn squared_sum_empty_array_is_zero() {
    let b = greeter_broker();
    let payload = obj(vec![("arr", Scalar::IntArr(vec![]))]);
    let r = b.deliver(&request("squaredSum", payload, 14));
    assert_eq!(
        r.outbound,
        vec![Outbound::Reply {
            correlation_id: 14,
            body: ReplyBody::Success(Value::Scalar(Scalar::Int(0))),
        }]
    );
}

#[test]
fn squared_sum_negative_entries_square_positive() {
    let b = greeter_broker();
    let payload = obj(vec![("arr", Scalar::IntArr(vec![-4, 3]))]);
    let r = b.deliver(&request("squaredSum", payload, 15));
    assert_eq!(
        r.outbound,
        vec![Outbound::Reply {
            correlation_id: 15,
            body: ReplyBody::Success(Value::Scalar(Scalar::Int(25))),
        }]
    );
}

#[test]
fn squared_sum_overflow_is_handler_failure() {
    let b = greeter_broker();
    // 3037000500^2 is just past i64::MAX.
    let payload = obj(vec![("arr", Scalar::IntArr(vec![3_037_000_500]))]);
    let r = b.deliver(&request("squaredSum", payload, 16));
    assert_eq!(
        r.outbound,
        vec![Outbound::Reply {
            correlation_id: 16,
            body: ReplyBody::Error(DispatchError::HandlerFailure(HandlerError::Overflow)),
        }]
    );
}

#[test]
fn squared_sum_wrong_type_is_bad_payload() {
    let b = greeter_broker();
    let payload = obj(vec![("arr", Scalar::Str("nope".to_string()))]);
    let r = b.deliver(&request("squaredSum", payload, 17));
    assert_eq!(
        r.outbound,
        vec![Outbound::Reply {
            correlation_id: 17,
            body: ReplyBody::Error(DispatchError::BadPayload(DecodeError::WrongType(
                "arr".to_string()
            ))),
        }]
    );
    assert!(r.invocations.is_empty());
}

#[test]
fn first_field_wins_on_duplicate_keys() {
    let b = greeter_broker();
    let payload = obj(vec![
        ("a", Scalar::Int(1)),
        ("a", Scalar::Int(100)),
        ("b", Scalar::Int(2)),
    ]);
    let r = b.deliver(&request("add", payload, 18));
    assert_eq!(
        r.outbound,
        vec![Outbound::Reply {
            correlation_id: 18,
            body: ReplyBody::Success(Value::Scalar(Scalar::Int(3))),
        }]
    );
}
