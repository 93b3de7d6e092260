//! The handlers this node registers, and their exact semantics.
//!
//! Each handler owns an expected payload shape; the dispatch core decodes
//! the payload against it before the handler runs.  Handlers are total:
//! they either produce their effects and succeed, or signal a
//! `HandlerError` that the dispatch core routes (an error reply for
//! actions, a logged drop for events).  Sums that would leave `i64` are
//! a handler failure, not a panic.

use crate::codec::{
    decode_add, decode_add_model, decode_print_name, decode_print_name_model, decode_squared_sum,
    decode_squared_sum_model, AddMessage, DecodeError, DecodeErrorModel, PrintNameMessage,
    SquaredSumMessage,
};
use crate::context::{ActionContext, EventContext};
use crate::registry::{ActionHandler, EventHandler};
use crate::value::{Field, Scalar, ScalarModel, Value, ValueModel};
use vstd::prelude::*;
use vstd::string::StringExecFns;

verus! {

/// Why a handler signalled failure.
#[derive(Debug, PartialEq, Eq, Structural, Clone, Copy)]
pub enum HandlerError {
    /// The arithmetic result does not fit the reply's integer type.
    Overflow,
    /// The handler refused the invocation.
    Rejected,
}

/// A decoded action payload, tagged by the handler it belongs to.
#[derive(Debug, PartialEq)]
pub enum DecodedAction {
    Add(AddMessage),
    SquaredSum(SquaredSumMessage),
}

/// Mathematical model of a `DecodedAction`.
pub enum DecodedActionModel {
    Add(i64, i64),
    SquaredSum(Seq<i64>),
}

impl View for DecodedAction {
    type V = DecodedActionModel;

    open spec fn view(&self) -> DecodedActionModel {
        match self {
            DecodedAction::Add(m) => DecodedActionModel::Add(m.a, m.b),
            DecodedAction::SquaredSum(m) => DecodedActionModel::SquaredSum(m.arr@),
        }
    }
}

/// A decoded event payload, tagged by the handler it belongs to.
#[derive(Debug, PartialEq)]
pub enum DecodedEvent {
    EmitHi,
    BroadcastName(PrintNameMessage),
    AlwaysFail,
}

/// Mathematical model of a `DecodedEvent`.
pub enum DecodedEventModel {
    EmitHi,
    BroadcastName(Seq<char>),
    AlwaysFail,
}

impl View for DecodedEvent {
    type V = DecodedEventModel;

    open spec fn view(&self) -> DecodedEventModel {
        match self {
            DecodedEvent::EmitHi => DecodedEventModel::EmitHi,
            DecodedEvent::BroadcastName(m) => DecodedEventModel::BroadcastName(m.name@),
            DecodedEvent::AlwaysFail => DecodedEventModel::AlwaysFail,
        }
    }
}

/// What decoding a payload for the given action handler yields.
pub open spec fn decode_action_model(h: ActionHandler, v: ValueModel) -> Result<
    DecodedActionModel,
    DecodeErrorModel,
> {
    match h {
        ActionHandler::Add => match decode_add_model(v) {
            Ok((a, b)) => Ok(DecodedActionModel::Add(a, b)),
            Err(e) => Err(e),
        },
        ActionHandler::SquaredSum => match decode_squared_sum_model(v) {
            Ok(s) => Ok(DecodedActionModel::SquaredSum(s)),
            Err(e) => Err(e),
        },
    }
}

/// Decodes a payload against the shape the action handler expects.
pub fn decode_action(h: ActionHandler, v: &Value) -> (r: Result<DecodedAction, DecodeError>)
    ensures
        match r {
            Ok(d) => decode_action_model(h, v@) == Ok::<DecodedActionModel, DecodeErrorModel>(d@),
            Err(e) => decode_action_model(h, v@) == Err::<DecodedActionModel, DecodeErrorModel>(
                e@,
            ),
        },
{
    match h {
        ActionHandler::Add => match decode_add(v) {
            Ok(m) => Ok(DecodedAction::Add(m)),
            Err(e) => Err(e),
        },
        ActionHandler::SquaredSum => match decode_squared_sum(v) {
            Ok(m) => Ok(DecodedAction::SquaredSum(m)),
            Err(e) => Err(e),
        },
    }
}

/// What decoding a payload for the given event handler yields.
/// `EmitHi` and `AlwaysFail` take any payload.
pub open spec fn decode_event_model(h: EventHandler, v: ValueModel) -> Result<
    DecodedEventModel,
    DecodeErrorModel,
> {
    match h {
        EventHandler::EmitHi => Ok(DecodedEventModel::EmitHi),
        EventHandler::BroadcastName => match decode_print_name_model(v) {
            Ok(n) => Ok(DecodedEventModel::BroadcastName(n)),
            Err(e) => Err(e),
        },
        EventHandler::AlwaysFail => Ok(DecodedEventModel::AlwaysFail),
    }
}

/// Decodes a payload against the shape the event handler expects.
pub fn decode_event(h: EventHandler, v: &Value) -> (r: Result<DecodedEvent, DecodeError>)
    ensures
        match r {
            Ok(d) => decode_event_model(h, v@) == Ok::<DecodedEventModel, DecodeErrorModel>(d@),
            Err(e) => decode_event_model(h, v@) == Err::<DecodedEventModel, DecodeErrorModel>(e@),
        },
{
    match h {
        EventHandler::EmitHi => Ok(DecodedEvent::EmitHi),
        EventHandler::BroadcastName => match decode_print_name(v) {
            Ok(m) => Ok(DecodedEvent::BroadcastName(m)),
            Err(e) => Err(e),
        },
        EventHandler::AlwaysFail => Ok(DecodedEvent::AlwaysFail),
    }
}

/// The sum of the squares of a sequence of machine integers, as an
/// unbounded integer.
pub open spec fn sq_sum(s: Seq<i64>) -> int
    decreases s.len(),
{
    if s.len() == 0 {
        0
    } else {
        sq_sum(s.drop_last()) + s.last() * s.last()
    }
}

pub proof fn lemma_sq_sum_nonneg(s: Seq<i64>)
    ensures
        sq_sum(s) >= 0,
    decreases s.len(),
{
    if s.len() > 0 {
        lemma_sq_sum_nonneg(s.drop_last());
        assert(s.last() * s.last() >= 0) by (nonlinear_arith);
    }
}

/// A prefix never sums past the whole: squares are nonnegative.
pub proof fn lemma_sq_sum_take_le(s: Seq<i64>, i: int)
    requires
        0 <= i <= s.len(),
    ensures
        sq_sum(s.take(i)) <= sq_sum(s),
    decreases s.len() - i,
{
    if i == s.len() {
        assert(s.take(i) =~= s);
    } else {
        lemma_sq_sum_take_le(s, i + 1);
        assert(s.take(i + 1).drop_last() =~= s.take(i));
        assert(s.take(i + 1).last() == s[i]);
        assert(s[i] * s[i] >= 0) by (nonlinear_arith);
    }
}

/// Sums the squares, or reports that the total leaves `i64`.
fn compute_squared_sum(arr: &Vec<i64>) -> (r: Option<i64>)
    ensures
        match r {
            Some(t) => sq_sum(arr@) <= i64::MAX && t == sq_sum(arr@),
            None => sq_sum(arr@) > i64::MAX,
        },
{
    let mut acc: i64 = 0;
    let mut i: usize = 0;
    proof {
        assert(arr@.take(0) =~= Seq::<i64>::empty());
    }
    while i < arr.len()
        invariant
            0 <= i <= arr.len(),
            acc >= 0,
            acc == sq_sum(arr@.take(i as int)),
        decreases arr.len() - i,
    {
        let x = arr[i];
        proof {
            assert(x as int * x as int >= 0 && x as int * x as int <= 0x8000_0000_0000_0000
                * 0x8000_0000_0000_0000) by (nonlinear_arith)
                requires
                    -0x8000_0000_0000_0000 <= x as int <= 0x7FFF_FFFF_FFFF_FFFF,
            ;
        }
        let sq: i128 = (x as i128) * (x as i128);
        let sum: i128 = (acc as i128) + sq;
        proof {
            assert(arr@.take(i as int + 1).drop_last() =~= arr@.take(i as int));
            assert(arr@.take(i as int + 1).last() == arr@[i as int]);
            assert(sq_sum(arr@.take(i as int + 1)) == acc + sq);
        }
        if sum > i64::MAX as i128 {
            proof {
                lemma_sq_sum_take_le(arr@, i as int + 1);
            }
            return None;
        }
        acc = sum as i64;
        i += 1;
    }
    proof {
        assert(arr@.take(arr@.len() as int) =~= arr@);
    }
    Some(acc)
}

/// The reply an action handler produces from its decoded payload, or the
/// failure it signals.
pub open spec fn action_outcome_model(d: DecodedActionModel) -> Result<ValueModel, HandlerError> {
    match d {
        DecodedActionModel::Add(a, b) => if i64::MIN <= a + b <= i64::MAX {
            Ok(ValueModel::Scalar(ScalarModel::Int((a + b) as i64)))
        } else {
            Err(HandlerError::Overflow)
        },
        DecodedActionModel::SquaredSum(s) => if sq_sum(s) <= i64::MAX {
            Ok(ValueModel::Scalar(ScalarModel::Int(sq_sum(s) as i64)))
        } else {
            Err(HandlerError::Overflow)
        },
    }
}

/// Runs an action handler on its decoded payload.  On success exactly
/// one reply is pending; on failure none is, and the dispatch core
/// synthesizes the error reply.  Action handlers buffer no other
/// effects.
pub fn run_action(d: &DecodedAction, ctx: &mut ActionContext) -> (r: Result<(), HandlerError>)
    requires
        old(ctx).pending_reply is None,
    ensures
        final(ctx).params == old(ctx).params,
        final(ctx).meta == old(ctx).meta,
        final(ctx).effects == old(ctx).effects,
        match action_outcome_model(d@) {
            Ok(v) => r is Ok && (final(ctx).pending_reply matches Some(pv) && pv@ == v),
            Err(he) => r == Err::<(), HandlerError>(he) && final(ctx).pending_reply is None,
        },
{
    match d {
        DecodedAction::Add(m) => {
            let sum: i128 = (m.a as i128) + (m.b as i128);
            if i64::MIN as i128 <= sum && sum <= i64::MAX as i128 {
                ctx.reply(Value::Scalar(Scalar::Int(sum as i64)));
                Ok(())
            } else {
                Err(HandlerError::Overflow)
            }
        },
        DecodedAction::SquaredSum(m) => {
            match compute_squared_sum(&m.arr) {
                Some(total) => {
                    ctx.reply(Value::Scalar(Scalar::Int(total)));
                    Ok(())
                },
                None => Err(HandlerError::Overflow),
            }
        },
    }
}

/// The outcome and the effects an event handler produces from its
/// decoded payload.
pub open spec fn event_run_model(d: DecodedEventModel) -> (Result<(), HandlerError>, Seq<
    crate::context::EffectModel,
>) {
    match d {
        DecodedEventModel::EmitHi => (
            Ok(()),
            seq![
                crate::context::EffectModel::Emit(
                    "test"@,
                    ValueModel::Obj(Seq::<(Seq<char>, ScalarModel)>::empty()),
                )
            ],
        ),
        DecodedEventModel::BroadcastName(n) => (
            Ok(()),
            seq![
                crate::context::EffectModel::Broadcast(
                    "testWithParam"@,
                    ValueModel::Obj(seq![("name"@, ScalarModel::Str(n))]),
                )
            ],
        ),
        DecodedEventModel::AlwaysFail => (Err(HandlerError::Rejected), Seq::empty()),
    }
}

/// Runs an event handler on its decoded payload, buffering its effects
/// in the context.  A failure leaves the buffer as it was.
pub fn run_event(d: DecodedEvent, ctx: &mut EventContext) -> (r: Result<(), HandlerError>)
    ensures
        final(ctx).params == old(ctx).params,
        final(ctx).meta == old(ctx).meta,
        r == event_run_model(d@).0,
        final(ctx).effects_view() == old(ctx).effects_view() + event_run_model(d@).1,
{
    let ghost dm = d@;
    let ghost before = ctx.effects_view();
    match d {
        DecodedEvent::EmitHi => {
            ctx.emit(String::from_str("test"), Value::empty_obj());
            proof {
                assert(ctx.effects_view() =~= before + event_run_model(dm).1);
            }
            Ok(())
        },
        DecodedEvent::BroadcastName(m) => {
            let ghost nm = m.name@;
            let mut fields: Vec<Field> = Vec::new();
            fields.push(Field { key: String::from_str("name"), value: Scalar::Str(m.name) });
            let payload = Value::Obj(fields);
            proof {
                assert(payload@ matches ValueModel::Obj(fs) && fs =~= seq![
                    ("name"@, ScalarModel::Str(nm)),
                ]);
            }
            ctx.broadcast(String::from_str("testWithParam"), payload);
            proof {
                assert(ctx.effects_view() =~= before + event_run_model(dm).1);
            }
            Ok(())
        },
        DecodedEvent::AlwaysFail => {
            proof {
                assert(ctx.effects_view() =~= before + event_run_model(dm).1);
            }
            Err(HandlerError::Rejected)
        },
    }
}

} // verus!
