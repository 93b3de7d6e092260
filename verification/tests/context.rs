use service_core::context::{ActionContext, Effect, EventContext, Meta};
use service_core::value::{Scalar, Value};

fn meta() -> Meta {
    Meta { sender: "caller-1".to_string(), target: "add".to_string() }
}

#[test]
fn first_reply_wins() {
    let mut ctx = ActionContext::new(Value::empty_obj(), meta());
    assert_eq!(ctx.pending_reply, None);
    ctx.reply(Value::Scalar(Scalar::Int(1)));
    ctx.reply(Value::Scalar(Scalar::Int(2)));
    // The second call is a no-op: one invocation, one reply.
    assert_eq!(ctx.pending_reply, Some(Value::Scalar(Scalar::Int(1))));
}

#[test]
fn effects_buffer_in_call_order() {
    let mut ctx = EventContext::new(Value::empty_obj(), meta());
    ctx.emit("one".to_string(), Value::Scalar(Scalar::Null));
    ctx.broadcast("two".to_string(), Value::Scalar(Scalar::Int(2)));
    ctx.emit("three".to_string(), Value::Scalar(Scalar::Bool(true)));
    assert_eq!(
        ctx.effects,
        vec![
            Effect::Emit { event: "one".to_string(), payload: Value::Scalar(Scalar::Null) },
            Effect::Broadcast { event: "two".to_string(), payload: Value::Scalar(Scalar::Int(2)) },
            Effect::Emit { event: "three".to_string(), payload: Value::Scalar(Scalar::Bool(true)) },
        ]
    );
}

#[test]
fn contexts_carry_params_and_meta() {
    let params = Value::Scalar(Scalar::Str("p".to_string()));
    let ctx = ActionContext::new(params.duplicate(), meta());
    assert_eq!(ctx.params, params);
    assert_eq!(ctx.meta.sender, "caller-1");
    assert_eq!(ctx.meta.target, "add");
    assert!(ctx.effects.is_empty());
}
