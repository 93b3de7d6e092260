//! The dispatch core's guarantees, stated and proved once over the
//! dispatch model that `Broker::deliver` is proved to compute.

use crate::dispatch::{
    deliver_model, effect_to_outbound, event_effects_model, event_invocation_model,
    events_invocations_model, events_outbound_model, request_model, DispatchErrorModel,
    EnvelopeKind, EnvelopeModel, HandlerRef, InvocationOutcomeModel, OutboundModel,
    ReplyBodyModel,
};
use crate::codec::DecodeErrorModel;
use crate::context::EffectModel;
use crate::handlers::decode_action_model;
use crate::handlers::decode_event_model;
use crate::registry::{
    action_lookup, has_action_name, matching_event_handlers, ActionHandler, ActionModel,
    BrokerModel,
};
use crate::value::ValueModel;
use vstd::prelude::*;

verus! {

/// How many replies a batch of outbound envelopes carries.
pub open spec fn reply_count(out: Seq<OutboundModel>) -> int
    decreases out.len(),
{
    if out.len() == 0 {
        0
    } else {
        reply_count(out.drop_last()) + (if out.last() is Reply {
            1int
        } else {
            0int
        })
    }
}

proof fn lemma_reply_count_single(s: Seq<OutboundModel>)
    requires
        s.len() == 1,
        s[0] is Reply,
    ensures
        reply_count(s) == 1,
{
    assert(s.drop_last() =~= Seq::<OutboundModel>::empty());
    assert(reply_count(s.drop_last()) == 0);
    assert(s.last() == s[0]);
}

proof fn lemma_reply_count_add(a: Seq<OutboundModel>, b: Seq<OutboundModel>)
    ensures
        reply_count(a + b) == reply_count(a) + reply_count(b),
    decreases b.len(),
{
    if b.len() == 0 {
        assert(a + b =~= a);
    } else {
        lemma_reply_count_add(a, b.drop_last());
        assert((a + b).drop_last() =~= a + b.drop_last());
        assert((a + b).last() == b.last());
    }
}

proof fn lemma_no_reply_in_effects(effects: Seq<EffectModel>)
    ensures
        reply_count(effects.map_values(|e: EffectModel| effect_to_outbound(e))) == 0,
    decreases effects.len(),
{
    let mapped = effects.map_values(|e: EffectModel| effect_to_outbound(e));
    if effects.len() > 0 {
        lemma_no_reply_in_effects(effects.drop_last());
        assert(mapped.drop_last() =~= effects.drop_last().map_values(
            |e: EffectModel| effect_to_outbound(e),
        ));
        assert(!(mapped.last() is Reply));
    }
}

proof fn lemma_events_outbound_no_reply(hs: Seq<crate::registry::EventHandler>, p: ValueModel)
    ensures
        reply_count(events_outbound_model(hs, p)) == 0,
    decreases hs.len(),
{
    if hs.len() > 0 {
        lemma_events_outbound_no_reply(hs.drop_last(), p);
        lemma_no_reply_in_effects(event_effects_model(hs.last(), p));
        lemma_reply_count_add(
            events_outbound_model(hs.drop_last(), p),
            event_effects_model(hs.last(), p).map_values(|e: EffectModel| effect_to_outbound(e)),
        );
    }
}

proof fn lemma_events_invocations_pointwise(hs: Seq<crate::registry::EventHandler>, p: ValueModel)
    ensures
        events_invocations_model(hs, p).len() == hs.len(),
        forall|i: int|
            0 <= i < hs.len() ==> events_invocations_model(hs, p)[i] == event_invocation_model(
                hs[i],
                p,
            ),
    decreases hs.len(),
{
    if hs.len() > 0 {
        lemma_events_invocations_pointwise(hs.drop_last(), p);
        assert forall|i: int| 0 <= i < hs.len() implies events_invocations_model(hs, p)[i]
            == event_invocation_model(hs[i], p) by {
            if i < hs.len() - 1 {
                assert(hs.drop_last()[i] == hs[i]);
            }
        }
    }
}

/// A well-formed request is answered exactly once: whatever resolution,
/// decoding and the handler do, the outbound batch carries exactly one
/// reply, and it carries the request's correlation id.
pub proof fn law_request_exactly_one_reply(b: BrokerModel, env: EnvelopeModel, cid: u64)
    requires
        env.kind == (EnvelopeKind::Request { correlation_id: cid }),
    ensures
        reply_count(deliver_model(b, env).outbound) == 1,
        deliver_model(b, env).outbound.len() == 1,
        (deliver_model(b, env).outbound[0] matches OutboundModel::Reply(c, _) && c == cid),
{
    let m = request_model(b, env.target, env.payload, cid);
    match action_lookup(b.actions, env.target) {
        None => lemma_reply_count_single(m.outbound),
        Some(h) => match decode_action_model(h, env.payload) {
            Err(_) => lemma_reply_count_single(m.outbound),
            Ok(_) => lemma_reply_count_single(m.outbound),
        },
    }
}

/// A well-formed request for a registered action invokes that action's
/// handler exactly once, on exactly the request's payload.
pub proof fn law_request_invokes_handler_once(
    b: BrokerModel,
    env: EnvelopeModel,
    cid: u64,
    h: ActionHandler,
)
    requires
        env.kind == (EnvelopeKind::Request { correlation_id: cid }),
        action_lookup(b.actions, env.target) == Some(h),
        decode_action_model(h, env.payload) is Ok,
    ensures
        deliver_model(b, env).invocations.len() == 1,
        deliver_model(b, env).invocations[0].handler == HandlerRef::Action(h),
        deliver_model(b, env).invocations[0].params == env.payload,
{
}

/// A request for an unregistered action name invokes nothing and is
/// answered with a `NotFound` error reply.
pub proof fn law_unknown_action_not_found(b: BrokerModel, env: EnvelopeModel, cid: u64)
    requires
        env.kind == (EnvelopeKind::Request { correlation_id: cid }),
        action_lookup(b.actions, env.target) is None,
    ensures
        deliver_model(b, env).invocations.len() == 0,
        deliver_model(b, env).outbound =~= seq![
            OutboundModel::Reply(cid, ReplyBodyModel::Error(DispatchErrorModel::NotFound)),
        ],
{
}

/// A malformed action payload never reaches the handler: no invocation
/// happens and the caller gets exactly the `BadPayload` error reply.
pub proof fn law_bad_action_payload_skips_handler(
    b: BrokerModel,
    env: EnvelopeModel,
    cid: u64,
    h: ActionHandler,
    e: DecodeErrorModel,
)
    requires
        env.kind == (EnvelopeKind::Request { correlation_id: cid }),
        action_lookup(b.actions, env.target) == Some(h),
        decode_action_model(h, env.payload) == Err::<
            crate::handlers::DecodedActionModel,
            DecodeErrorModel,
        >(e),
    ensures
        deliver_model(b, env).invocations.len() == 0,
        deliver_model(b, env).outbound =~= seq![
            OutboundModel::Reply(
                cid,
                ReplyBodyModel::Error(DispatchErrorModel::BadPayload(e)),
            ),
        ],
{
}

/// Broadcasting reaches every subscribed handler: one invocation record
/// per handler, in registration order, each on the broadcast payload.
pub proof fn law_broadcast_reaches_all(b: BrokerModel, env: EnvelopeModel)
    requires
        env.kind == EnvelopeKind::Broadcast,
    ensures
        deliver_model(b, env).invocations.len() == matching_event_handlers(
            b.events,
            env.target,
        ).len(),
        forall|i: int|
            0 <= i < matching_event_handlers(b.events, env.target).len() ==> deliver_model(
                b,
                env,
            ).invocations[i] == event_invocation_model(
                matching_event_handlers(b.events, env.target)[i],
                env.payload,
            ),
{
    lemma_events_invocations_pointwise(matching_event_handlers(b.events, env.target), env.payload);
}

/// Sibling isolation: under a broadcast, what the `i`-th subscribed
/// handler's invocation records is a function of that handler and the
/// payload alone.  In particular a sibling that fails, or whose payload
/// does not decode, never keeps another handler from running or changes
/// what it observes.
pub proof fn law_sibling_isolation(b: BrokerModel, env: EnvelopeModel, i: int)
    requires
        env.kind == EnvelopeKind::Broadcast,
        0 <= i < matching_event_handlers(b.events, env.target).len(),
    ensures
        deliver_model(b, env).invocations[i] == event_invocation_model(
            matching_event_handlers(b.events, env.target)[i],
            env.payload,
        ),
{
    law_broadcast_reaches_all(b, env);
}

/// An event payload that does not decode for a handler never runs that
/// handler: its record says so and it contributes no effects.
pub proof fn law_bad_event_payload_skips_handler(
    b: BrokerModel,
    env: EnvelopeModel,
    i: int,
    e: DecodeErrorModel,
)
    requires
        env.kind == EnvelopeKind::Broadcast,
        0 <= i < matching_event_handlers(b.events, env.target).len(),
        decode_event_model(
            matching_event_handlers(b.events, env.target)[i],
            env.payload,
        ) == Err::<crate::handlers::DecodedEventModel, DecodeErrorModel>(e),
    ensures
        deliver_model(b, env).invocations[i].outcome == InvocationOutcomeModel::NotDecoded(e),
        event_effects_model(
            matching_event_handlers(b.events, env.target)[i],
            env.payload,
        ) =~= Seq::<EffectModel>::empty(),
{
    law_sibling_isolation(b, env, i);
}

/// Events have no reply channel: dispatching an event, broadcast or
/// balanced, never produces a reply, whatever the handlers do.
pub proof fn law_events_never_reply(b: BrokerModel, env: EnvelopeModel)
    requires
        env.kind == EnvelopeKind::Broadcast || (env.kind matches EnvelopeKind::Balanced { .. }),
    ensures
        reply_count(deliver_model(b, env).outbound) == 0,
{
    match env.kind {
        EnvelopeKind::Broadcast => {
            lemma_events_outbound_no_reply(
                matching_event_handlers(b.events, env.target),
                env.payload,
            );
        },
        EnvelopeKind::Balanced { slot } => {
            let hs = matching_event_handlers(b.events, env.target);
            if hs.len() > 0 {
                lemma_no_reply_in_effects(
                    event_effects_model(hs[slot as int % hs.len() as int], env.payload),
                );
            }
        },
        EnvelopeKind::Request { .. } => {},
    }
}

/// A balanced event reaches exactly one subscribed handler, the one the
/// transport's selector picks; with no subscribers it reaches none.
pub proof fn law_balanced_selects_one(b: BrokerModel, env: EnvelopeModel, slot: u64)
    requires
        env.kind == (EnvelopeKind::Balanced { slot }),
        matching_event_handlers(b.events, env.target).len() > 0,
    ensures
        deliver_model(b, env).invocations =~= seq![
            event_invocation_model(
                matching_event_handlers(b.events, env.target)[
                    slot as int % matching_event_handlers(b.events, env.target).len() as int
                ],
                env.payload,
            ),
        ],
{
}

/// A balanced event with no subscribers invokes nothing and sends
/// nothing: a nonexistent subscriber is not an error.
pub proof fn law_balanced_no_subscribers(b: BrokerModel, env: EnvelopeModel, slot: u64)
    requires
        env.kind == (EnvelopeKind::Balanced { slot }),
        matching_event_handlers(b.events, env.target).len() == 0,
    ensures
        deliver_model(b, env).invocations =~= Seq::<crate::dispatch::InvocationModel>::empty(),
        deliver_model(b, env).outbound =~= Seq::<OutboundModel>::empty(),
{
}

/// Once an action name is registered it is taken: any later
/// registration of the same name finds it and, by the registration
/// contracts, fails without replacing the first handler.
pub proof fn law_registered_name_is_taken(actions: Seq<ActionModel>, a: ActionModel)
    ensures
        has_action_name(actions.push(a), a.name),
{
    assert(actions.push(a)[actions.len() as int].name == a.name);
}

} // verus!
