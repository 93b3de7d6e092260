//! Dispatch core: routes one inbound envelope to its handlers and
//! collects the outbound envelopes for the transport.
//!
//! Per envelope the core resolves the target name in the registry,
//! decodes the payload against the resolved handler's shape, invokes the
//! handler with a fresh context, and routes the effects.  A request
//! always yields exactly one reply: a missing handler, a malformed
//! payload, and a failing handler each become a structured error reply,
//! never a hung or vanished request.  Events have no reply channel:
//! failures are dropped after being recorded, and one handler's failure
//! never keeps a sibling from running.  A handler that returns success
//! without replying is resolved with a `Null` reply, so no request waits
//! forever.  Timeouts and caller cancellation belong to the scheduling
//! collaborator around this core: the handlers here are total, so
//! neither arises inside it.

use crate::codec::{DecodeError, DecodeErrorModel};
use crate::context::{ActionContext, Effect, EffectModel, EventContext, Meta};
use crate::handlers::{
    action_outcome_model, decode_action, decode_action_model, decode_event, decode_event_model,
    event_run_model, run_action, run_event, HandlerError,
};
use crate::registry::{
    action_lookup, matching_event_handlers, ActionHandler, Broker, BrokerModel, EventHandler,
};
use crate::value::{Scalar, Value, ValueModel};
use vstd::prelude::*;

verus! {

/// How an inbound envelope asks to be delivered.
#[derive(Debug, PartialEq, Eq, Structural, Clone, Copy)]
pub enum EnvelopeKind {
    /// An action request; the reply carries this correlation id back.
    Request { correlation_id: u64 },
    /// An event for every local handler subscribed to the name.
    Broadcast,
    /// An event for one handler, picked by the transport's balancing
    /// policy; `slot` is the transport's opaque selector, reduced here
    /// to the local handler count.
    Balanced { slot: u64 },
}

/// One inbound envelope as the transport hands it over.
#[derive(Debug)]
pub struct Envelope {
    pub target: String,
    pub sender: String,
    pub payload: Value,
    pub kind: EnvelopeKind,
}

/// Mathematical model of an `Envelope`.
pub struct EnvelopeModel {
    pub target: Seq<char>,
    pub sender: Seq<char>,
    pub payload: ValueModel,
    pub kind: EnvelopeKind,
}

impl View for Envelope {
    type V = EnvelopeModel;

    open spec fn view(&self) -> EnvelopeModel {
        EnvelopeModel {
            target: self.target@,
            sender: self.sender@,
            payload: self.payload@,
            kind: self.kind,
        }
    }
}

/// Why a request failed; carried back in the error reply.
#[derive(Debug, PartialEq)]
pub enum DispatchError {
    /// No handler owns the requested action name.
    NotFound,
    /// The payload did not decode against the handler's shape.
    BadPayload(DecodeError),
    /// The handler ran and signalled failure.
    HandlerFailure(HandlerError),
}

/// Mathematical model of a `DispatchError`.
pub enum DispatchErrorModel {
    NotFound,
    BadPayload(DecodeErrorModel),
    HandlerFailure(HandlerError),
}

impl View for DispatchError {
    type V = DispatchErrorModel;

    open spec fn view(&self) -> DispatchErrorModel {
        match self {
            DispatchError::NotFound => DispatchErrorModel::NotFound,
            DispatchError::BadPayload(e) => DispatchErrorModel::BadPayload(e@),
            DispatchError::HandlerFailure(e) => DispatchErrorModel::HandlerFailure(*e),
        }
    }
}

/// What a reply carries: the handler's value, or a structured error.
#[derive(Debug, PartialEq)]
pub enum ReplyBody {
    Success(Value),
    Error(DispatchError),
}

/// Mathematical model of a `ReplyBody`.
pub enum ReplyBodyModel {
    Success(ValueModel),
    Error(DispatchErrorModel),
}

impl View for ReplyBody {
    type V = ReplyBodyModel;

    open spec fn view(&self) -> ReplyBodyModel {
        match self {
            ReplyBody::Success(v) => ReplyBodyModel::Success(v@),
            ReplyBody::Error(e) => ReplyBodyModel::Error(e@),
        }
    }
}

/// One outbound envelope handed to the transport to publish.
#[derive(Debug, PartialEq)]
pub enum Outbound {
    Reply { correlation_id: u64, body: ReplyBody },
    Emit { event: String, payload: Value },
    Broadcast { event: String, payload: Value },
}

/// Mathematical model of an `Outbound`.
pub enum OutboundModel {
    Reply(u64, ReplyBodyModel),
    Emit(Seq<char>, ValueModel),
    Broadcast(Seq<char>, ValueModel),
}

impl View for Outbound {
    type V = OutboundModel;

    open spec fn view(&self) -> OutboundModel {
        match self {
            Outbound::Reply { correlation_id, body } => OutboundModel::Reply(*correlation_id, body@),
            Outbound::Emit { event, payload } => OutboundModel::Emit(event@, payload@),
            Outbound::Broadcast { event, payload } => OutboundModel::Broadcast(event@, payload@),
        }
    }
}

/// Which handler an invocation record is about.
#[derive(Debug, PartialEq, Eq, Structural, Clone, Copy)]
pub enum HandlerRef {
    Action(ActionHandler),
    Event(EventHandler),
}

/// How one handler invocation ended.
#[derive(Debug, PartialEq)]
pub enum InvocationOutcome {
    /// The handler ran and succeeded.
    Completed,
    /// The handler ran and signalled failure.
    Failed(HandlerError),
    /// The payload did not decode for this handler, so it never ran.
    NotDecoded(DecodeError),
}

/// Mathematical model of an `InvocationOutcome`.
pub enum InvocationOutcomeModel {
    Completed,
    Failed(HandlerError),
    NotDecoded(DecodeErrorModel),
}

impl View for InvocationOutcome {
    type V = InvocationOutcomeModel;

    open spec fn view(&self) -> InvocationOutcomeModel {
        match self {
            InvocationOutcome::Completed => InvocationOutcomeModel::Completed,
            InvocationOutcome::Failed(e) => InvocationOutcomeModel::Failed(*e),
            InvocationOutcome::NotDecoded(e) => InvocationOutcomeModel::NotDecoded(e@),
        }
    }
}

/// The record of one handler invocation attempt: which handler, the
/// parameters it observed, and how it ended.
#[derive(Debug, PartialEq)]
pub struct Invocation {
    pub handler: HandlerRef,
    pub params: Value,
    pub outcome: InvocationOutcome,
}

/// Mathematical model of an `Invocation`.
pub struct InvocationModel {
    pub handler: HandlerRef,
    pub params: ValueModel,
    pub outcome: InvocationOutcomeModel,
}

impl View for Invocation {
    type V = InvocationModel;

    open spec fn view(&self) -> InvocationModel {
        InvocationModel { handler: self.handler, params: self.params@, outcome: self.outcome@ }
    }
}

/// Everything one dispatch produced: the outbound envelopes for the
/// transport, and the per-handler invocation records.
#[derive(Debug)]
pub struct DispatchResult {
    pub outbound: Vec<Outbound>,
    pub invocations: Vec<Invocation>,
}

impl DispatchResult {
    /// The models of the outbound envelopes, in emission order.
    pub open spec fn outbound_view(&self) -> Seq<OutboundModel> {
        self.outbound@.map_values(|o: Outbound| o@)
    }

    /// The models of the invocation records, in invocation order.
    pub open spec fn invocations_view(&self) -> Seq<InvocationModel> {
        self.invocations@.map_values(|x: Invocation| x@)
    }
}

/// Mathematical model of a `DispatchResult`.
pub struct DispatchModel {
    pub outbound: Seq<OutboundModel>,
    pub invocations: Seq<InvocationModel>,
}

/// A buffered effect as the outbound envelope it becomes.
pub open spec fn effect_to_outbound(e: EffectModel) -> OutboundModel {
    match e {
        EffectModel::Emit(n, p) => OutboundModel::Emit(n, p),
        EffectModel::Broadcast(n, p) => OutboundModel::Broadcast(n, p),
    }
}

/// The record one event handler leaves for a payload.  It depends on
/// that handler and the payload alone: siblings cannot interfere.
pub open spec fn event_invocation_model(h: EventHandler, payload: ValueModel) -> InvocationModel {
    match decode_event_model(h, payload) {
        Err(e) => InvocationModel {
            handler: HandlerRef::Event(h),
            params: payload,
            outcome: InvocationOutcomeModel::NotDecoded(e),
        },
        Ok(d) => InvocationModel {
            handler: HandlerRef::Event(h),
            params: payload,
            outcome: match event_run_model(d).0 {
                Ok(_) => InvocationOutcomeModel::Completed,
                Err(he) => InvocationOutcomeModel::Failed(he),
            },
        },
    }
}

/// The effects one event handler produces for a payload; none when the
/// payload does not decode for it.
pub open spec fn event_effects_model(h: EventHandler, payload: ValueModel) -> Seq<EffectModel> {
    match decode_event_model(h, payload) {
        Err(_) => Seq::empty(),
        Ok(d) => event_run_model(d).1,
    }
}

/// The outbound envelopes of a handler list, in handler order.
pub open spec fn events_outbound_model(hs: Seq<EventHandler>, payload: ValueModel) -> Seq<
    OutboundModel,
>
    decreases hs.len(),
{
    if hs.len() == 0 {
        Seq::empty()
    } else {
        events_outbound_model(hs.drop_last(), payload) + event_effects_model(
            hs.last(),
            payload,
        ).map_values(|e: EffectModel| effect_to_outbound(e))
    }
}

/// The invocation records of a handler list, one per handler, in
/// handler order.
pub open spec fn events_invocations_model(hs: Seq<EventHandler>, payload: ValueModel) -> Seq<
    InvocationModel,
>
    decreases hs.len(),
{
    if hs.len() == 0 {
        Seq::empty()
    } else {
        events_invocations_model(hs.drop_last(), payload).push(
            event_invocation_model(hs.last(), payload),
        )
    }
}

/// What dispatching a request produces: exactly one reply, and one
/// invocation record when the handler ran.
pub open spec fn request_model(
    b: BrokerModel,
    target: Seq<char>,
    payload: ValueModel,
    cid: u64,
) -> DispatchModel {
    match action_lookup(b.actions, target) {
        None => DispatchModel {
            outbound: seq![
                OutboundModel::Reply(cid, ReplyBodyModel::Error(DispatchErrorModel::NotFound))
            ],
            invocations: Seq::empty(),
        },
        Some(h) => match decode_action_model(h, payload) {
            Err(e) => DispatchModel {
                outbound: seq![
                    OutboundModel::Reply(
                        cid,
                        ReplyBodyModel::Error(DispatchErrorModel::BadPayload(e)),
                    )
                ],
                invocations: Seq::empty(),
            },
            Ok(d) => match action_outcome_model(d) {
                Ok(v) => DispatchModel {
                    outbound: seq![OutboundModel::Reply(cid, ReplyBodyModel::Success(v))],
                    invocations: seq![
                        InvocationModel {
                            handler: HandlerRef::Action(h),
                            params: payload,
                            outcome: InvocationOutcomeModel::Completed,
                        }
                    ],
                },
                Err(he) => DispatchModel {
                    outbound: seq![
                        OutboundModel::Reply(
                            cid,
                            ReplyBodyModel::Error(DispatchErrorModel::HandlerFailure(he)),
                        )
                    ],
                    invocations: seq![
                        InvocationModel {
                            handler: HandlerRef::Action(h),
                            params: payload,
                            outcome: InvocationOutcomeModel::Failed(he),
                        }
                    ],
                },
            },
        },
    }
}

/// What broadcasting produces: every subscribed handler is reached, in
/// registration order.
pub open spec fn broadcast_model(
    b: BrokerModel,
    target: Seq<char>,
    payload: ValueModel,
) -> DispatchModel {
    let hs = matching_event_handlers(b.events, target);
    DispatchModel {
        outbound: events_outbound_model(hs, payload),
        invocations: events_invocations_model(hs, payload),
    }
}

/// What a balanced event produces: exactly one subscribed handler is
/// reached, the one the transport's selector picks; none when nothing
/// is subscribed.
pub open spec fn balanced_model(
    b: BrokerModel,
    target: Seq<char>,
    payload: ValueModel,
    slot: u64,
) -> DispatchModel {
    let hs = matching_event_handlers(b.events, target);
    if hs.len() == 0 {
        DispatchModel { outbound: Seq::empty(), invocations: Seq::empty() }
    } else {
        let h = hs[slot as int % hs.len() as int];
        DispatchModel {
            outbound: event_effects_model(h, payload).map_values(
                |e: EffectModel| effect_to_outbound(e),
            ),
            invocations: seq![event_invocation_model(h, payload)],
        }
    }
}

/// What dispatching one envelope produces.
pub open spec fn deliver_model(b: BrokerModel, env: EnvelopeModel) -> DispatchModel {
    match env.kind {
        EnvelopeKind::Request { correlation_id } => request_model(
            b,
            env.target,
            env.payload,
            correlation_id,
        ),
        EnvelopeKind::Broadcast => broadcast_model(b, env.target, env.payload),
        EnvelopeKind::Balanced { slot } => balanced_model(b, env.target, env.payload, slot),
    }
}

fn effect_outbound(e: &Effect) -> (o: Outbound)
    ensures
        o@ == effect_to_outbound(e@),
{
    match e {
        Effect::Emit { event, payload } => Outbound::Emit {
            event: event.clone(),
            payload: payload.duplicate(),
        },
        Effect::Broadcast { event, payload } => Outbound::Broadcast {
            event: event.clone(),
            payload: payload.duplicate(),
        },
    }
}

fn append_effect_outbounds(out: &mut Vec<Outbound>, effects: &Vec<Effect>)
    ensures
        final(out)@.map_values(|o: Outbound| o@) == old(out)@.map_values(|o: Outbound| o@)
            + effects@.map_values(|e: Effect| e@).map_values(
            |e: EffectModel| effect_to_outbound(e),
        ),
{
    let ghost target = effects@.map_values(|e: Effect| e@).map_values(
        |e: EffectModel| effect_to_outbound(e),
    );
    let mut j: usize = 0;
    proof {
        assert(out@.map_values(|o: Outbound| o@) =~= old(out)@.map_values(|o: Outbound| o@)
            + target.take(0));
    }
    while j < effects.len()
        invariant
            0 <= j <= effects.len(),
            target == effects@.map_values(|e: Effect| e@).map_values(
                |e: EffectModel| effect_to_outbound(e),
            ),
            out@.map_values(|o: Outbound| o@) == old(out)@.map_values(|o: Outbound| o@)
                + target.take(j as int),
        decreases effects.len() - j,
    {
        let ghost before = out@.map_values(|o2: Outbound| o2@);
        let o = effect_outbound(&effects[j]);
        out.push(o);
        proof {
            assert(effects@.map_values(|e: Effect| e@)[j as int] == effects@[j as int]@);
            assert(o@ == target[j as int]);
            assert(out@.map_values(|o2: Outbound| o2@) =~= before.push(o@));
            assert(target.take(j as int + 1) =~= target.take(j as int).push(target[j as int]));
            assert(before.push(o@) =~= old(out)@.map_values(|o2: Outbound| o2@) + target.take(
                j as int + 1,
            ));
        }
        j += 1;
    }
    proof {
        assert(target.take(effects@.len() as int) =~= target);
    }
}

/// Decodes for and, when the payload fits, runs one event handler;
/// yields its invocation record and buffered effects.
fn invoke_event(h: EventHandler, env: &Envelope) -> (r: (Invocation, Vec<Effect>))
    ensures
        r.0@ == event_invocation_model(h, env.payload@),
        r.1@.map_values(|e: Effect| e@) == event_effects_model(h, env.payload@),
{
    match decode_event(h, &env.payload) {
        Err(e) => {
            let inv = Invocation {
                handler: HandlerRef::Event(h),
                params: env.payload.duplicate(),
                outcome: InvocationOutcome::NotDecoded(e),
            };
            let effects: Vec<Effect> = Vec::new();
            proof {
                assert(effects@.map_values(|e2: Effect| e2@) =~= Seq::<EffectModel>::empty());
            }
            (inv, effects)
        },
        Ok(d) => {
            let mut ctx = EventContext::new(
                env.payload.duplicate(),
                Meta { sender: env.sender.clone(), target: env.target.clone() },
            );
            let ghost dm = d@;
            let res = run_event(d, &mut ctx);
            let outcome = match res {
                Ok(_) => InvocationOutcome::Completed,
                Err(he) => InvocationOutcome::Failed(he),
            };
            let inv = Invocation {
                handler: HandlerRef::Event(h),
                params: env.payload.duplicate(),
                outcome,
            };
            proof {
                assert(ctx.effects_view() =~= Seq::<EffectModel>::empty() + event_run_model(dm).1);
                assert(Seq::<EffectModel>::empty() + event_run_model(dm).1 =~= event_run_model(
                    dm,
                ).1);
            }
            (inv, ctx.effects)
        },
    }
}

impl Broker {
    fn deliver_request(&self, cid: u64, env: &Envelope) -> (r: DispatchResult)
        ensures
            r.outbound_view() == request_model(self@, env.target@, env.payload@, cid).outbound,
            r.invocations_view() == request_model(self@, env.target@, env.payload@, cid)
                .invocations,
    {
        match self.resolve_action(&env.target) {
            None => {
                let mut outbound: Vec<Outbound> = Vec::new();
                outbound.push(
                    Outbound::Reply {
                        correlation_id: cid,
                        body: ReplyBody::Error(DispatchError::NotFound),
                    },
                );
                let r = DispatchResult { outbound, invocations: Vec::new() };
                proof {
                    assert(r.outbound_view() =~= seq![
                        OutboundModel::Reply(
                            cid,
                            ReplyBodyModel::Error(DispatchErrorModel::NotFound),
                        ),
                    ]);
                    assert(r.invocations_view() =~= Seq::<InvocationModel>::empty());
                }
                r
            },
            Some(h) => match decode_action(h, &env.payload) {
                Err(e) => {
                    let ghost em = e@;
                    let mut outbound: Vec<Outbound> = Vec::new();
                    outbound.push(
                        Outbound::Reply {
                            correlation_id: cid,
                            body: ReplyBody::Error(DispatchError::BadPayload(e)),
                        },
                    );
                    let r = DispatchResult { outbound, invocations: Vec::new() };
                    proof {
                        assert(r.outbound_view() =~= seq![
                            OutboundModel::Reply(
                                cid,
                                ReplyBodyModel::Error(DispatchErrorModel::BadPayload(em)),
                            ),
                        ]);
                        assert(r.invocations_view() =~= Seq::<InvocationModel>::empty());
                    }
                    r
                },
                Ok(d) => {
                    let mut ctx = ActionContext::new(
                        env.payload.duplicate(),
                        Meta { sender: env.sender.clone(), target: env.target.clone() },
                    );
                    let res = run_action(&d, &mut ctx);
                    match res {
                        Ok(_) => {
                            // The handlers here always reply on success; a
                            // handler that did not still resolves the
                            // request, with a `Null` reply.
                            let v = match ctx.pending_reply {
                                Some(v) => v,
                                None => Value::Scalar(Scalar::Null),
                            };
                            let mut outbound: Vec<Outbound> = Vec::new();
                            outbound.push(
                                Outbound::Reply {
                                    correlation_id: cid,
                                    body: ReplyBody::Success(v),
                                },
                            );
                            let mut invocations: Vec<Invocation> = Vec::new();
                            invocations.push(
                                Invocation {
                                    handler: HandlerRef::Action(h),
                                    params: env.payload.duplicate(),
                                    outcome: InvocationOutcome::Completed,
                                },
                            );
                            let r = DispatchResult { outbound, invocations };
                            proof {
                                assert(r.outbound_view() =~= seq![
                                    OutboundModel::Reply(
                                        cid,
                                        ReplyBodyModel::Success(
                                            action_outcome_model(d@)->Ok_0,
                                        ),
                                    ),
                                ]);
                                assert(r.invocations_view() =~= seq![
                                    InvocationModel {
                                        handler: HandlerRef::Action(h),
                                        params: env.payload@,
                                        outcome: InvocationOutcomeModel::Completed,
                                    },
                                ]);
                            }
                            r
                        },
                        Err(he) => {
                            let mut outbound: Vec<Outbound> = Vec::new();
                            outbound.push(
                                Outbound::Reply {
                                    correlation_id: cid,
                                    body: ReplyBody::Error(DispatchError::HandlerFailure(he)),
                                },
                            );
                            let mut invocations: Vec<Invocation> = Vec::new();
                            invocations.push(
                                Invocation {
                                    handler: HandlerRef::Action(h),
                                    params: env.payload.duplicate(),
                                    outcome: InvocationOutcome::Failed(he),
                                },
                            );
                            let r = DispatchResult { outbound, invocations };
                            proof {
                                assert(r.outbound_view() =~= seq![
                                    OutboundModel::Reply(
                                        cid,
                                        ReplyBodyModel::Error(
                                            DispatchErrorModel::HandlerFailure(he),
                                        ),
                                    ),
                                ]);
                                assert(r.invocations_view() =~= seq![
                                    InvocationModel {
                                        handler: HandlerRef::Action(h),
                                        params: env.payload@,
                                        outcome: InvocationOutcomeModel::Failed(he),
                                    },
                                ]);
                            }
                            r
                        },
                    }
                },
            },
        }
    }

    fn deliver_broadcast(&self, env: &Envelope) -> (r: DispatchResult)
        ensures
            r.outbound_view() == broadcast_model(self@, env.target@, env.payload@).outbound,
            r.invocations_view() == broadcast_model(self@, env.target@, env.payload@).invocations,
    {
        let handlers = self.resolve_event(&env.target);
        let ghost hs = handlers@;
        let mut outbound: Vec<Outbound> = Vec::new();
        let mut invocations: Vec<Invocation> = Vec::new();
        let mut i: usize = 0;
        proof {
            assert(outbound@.map_values(|o: Outbound| o@) =~= events_outbound_model(
                hs.take(0),
                env.payload@,
            ));
            assert(invocations@.map_values(|x: Invocation| x@) =~= events_invocations_model(
                hs.take(0),
                env.payload@,
            ));
        }
        while i < handlers.len()
            invariant
                0 <= i <= handlers.len(),
                hs == handlers@,
                outbound@.map_values(|o: Outbound| o@) == events_outbound_model(
                    hs.take(i as int),
                    env.payload@,
                ),
                invocations@.map_values(|x: Invocation| x@) == events_invocations_model(
                    hs.take(i as int),
                    env.payload@,
                ),
            decreases handlers.len() - i,
        {
            let ghost inv_before = invocations@.map_values(|x: Invocation| x@);
            let (inv, effects) = invoke_event(handlers[i], env);
            invocations.push(inv);
            append_effect_outbounds(&mut outbound, &effects);
            proof {
                assert(hs.take(i as int + 1).drop_last() =~= hs.take(i as int));
                assert(hs.take(i as int + 1).last() == hs[i as int]);
                assert(invocations@.map_values(|x: Invocation| x@) =~= inv_before.push(inv@));
                assert(outbound@.map_values(|o: Outbound| o@) =~= events_outbound_model(
                    hs.take(i as int + 1),
                    env.payload@,
                ));
            }
            i += 1;
        }
        proof {
            assert(hs.take(hs.len() as int) =~= hs);
        }
        DispatchResult { outbound, invocations }
    }

    fn deliver_balanced(&self, slot: u64, env: &Envelope) -> (r: DispatchResult)
        ensures
            r.outbound_view() == balanced_model(self@, env.target@, env.payload@, slot).outbound,
            r.invocations_view() == balanced_model(self@, env.target@, env.payload@, slot)
                .invocations,
    {
        let handlers = self.resolve_event(&env.target);
        if handlers.len() == 0 {
            let r = DispatchResult { outbound: Vec::new(), invocations: Vec::new() };
            proof {
                assert(r.outbound_view() =~= Seq::<OutboundModel>::empty());
                assert(r.invocations_view() =~= Seq::<InvocationModel>::empty());
            }
            r
        } else {
            let idx: usize = (slot % (handlers.len() as u64)) as usize;
            proof {
                assert(idx as int == slot as int % handlers@.len() as int);
            }
            let (inv, effects) = invoke_event(handlers[idx], env);
            let mut outbound: Vec<Outbound> = Vec::new();
            append_effect_outbounds(&mut outbound, &effects);
            let mut invocations: Vec<Invocation> = Vec::new();
            invocations.push(inv);
            let r = DispatchResult { outbound, invocations };
            proof {
                let h = handlers@[slot as int % handlers@.len() as int];
                assert(r.outbound_view() =~= event_effects_model(h, env.payload@).map_values(
                    |e: EffectModel| effect_to_outbound(e),
                ));
                assert(r.invocations_view() =~= seq![event_invocation_model(h, env.payload@)]);
            }
            r
        }
    }

    /// Dispatches one inbound envelope and returns everything it
    /// produced.  The outcome is exactly `deliver_model` of the
    /// broker's registry and the envelope: requests get exactly one
    /// reply, broadcasts reach every subscribed handler, balanced
    /// events reach exactly the selected one.
    ///
    /// The broker is only read: transport workers may dispatch many
    /// envelopes concurrently against one registry.
    pub fn deliver(&self, env: &Envelope) -> (r: DispatchResult)
        ensures
            r.outbound_view() == deliver_model(self@, env@).outbound,
            r.invocations_view() == deliver_model(self@, env@).invocations,
    {
        match env.kind {
            EnvelopeKind::Request { correlation_id } => self.deliver_request(correlation_id, env),
            EnvelopeKind::Broadcast => self.deliver_broadcast(env),
            EnvelopeKind::Balanced { slot } => self.deliver_balanced(slot, env),
        }
    }
}

} // verus!
