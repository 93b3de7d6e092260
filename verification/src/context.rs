//! Per-invocation contexts and the effects a handler produces through
//! them.
//!
//! A context is built fresh for every dispatch and never shared between
//! handlers.  It carries the raw decoded parameters and the invocation
//! metadata, and it is the handler's broker facade: `reply`, `emit` and
//! `broadcast` do not touch the transport, they buffer effects which the
//! dispatch core hands outward once the handler returns, so the handler
//! is decoupled from transport delivery (fire and forget).

use crate::value::{Value, ValueModel};
use vstd::prelude::*;

verus! {

/// Invocation metadata: who sent the envelope and which action or event
/// name it targeted.
#[derive(Debug, PartialEq)]
pub struct Meta {
    pub sender: String,
    pub target: String,
}

/// An outbound effect buffered by a context.
#[derive(Debug, PartialEq)]
pub enum Effect {
    /// Deliver the event to one handler group picked by the transport.
    Emit { event: String, payload: Value },
    /// Deliver the event to every subscribed handler group.
    Broadcast { event: String, payload: Value },
}

/// Mathematical model of an `Effect`.
pub enum EffectModel {
    Emit(Seq<char>, ValueModel),
    Broadcast(Seq<char>, ValueModel),
}

impl View for Effect {
    type V = EffectModel;

    open spec fn view(&self) -> EffectModel {
        match self {
            Effect::Emit { event, payload } => EffectModel::Emit(event@, payload@),
            Effect::Broadcast { event, payload } => EffectModel::Broadcast(event@, payload@),
        }
    }
}

/// Context of one action invocation: parameters, metadata, and the
/// pending reply and buffered effects the handler produces.
#[derive(Debug)]
pub struct ActionContext {
    pub params: Value,
    pub meta: Meta,
    pub pending_reply: Option<Value>,
    pub effects: Vec<Effect>,
}

/// Context of one event invocation.  Events have no reply channel: the
/// only outbound operations are `emit` and `broadcast`.
#[derive(Debug)]
pub struct EventContext {
    pub params: Value,
    pub meta: Meta,
    pub effects: Vec<Effect>,
}

impl ActionContext {
    /// The models of the buffered effects, oldest first.
    pub open spec fn effects_view(&self) -> Seq<EffectModel> {
        self.effects@.map_values(|e: Effect| e@)
    }

    /// A fresh context: no reply pending, no effects buffered.
    pub fn new(params: Value, meta: Meta) -> (ctx: ActionContext)
        ensures
            ctx.params == params,
            ctx.meta == meta,
            ctx.pending_reply is None,
            ctx.effects_view() =~= Seq::<EffectModel>::empty(),
    {
        let ctx = ActionContext { params, meta, pending_reply: None, effects: Vec::new() };
        proof {
            assert(ctx.effects_view() =~= Seq::<EffectModel>::empty());
        }
        ctx
    }

    /// Records the reply.  First call wins: once a reply is pending,
    /// later calls change nothing, so one invocation yields one reply.
    pub fn reply(&mut self, value: Value)
        ensures
            final(self).pending_reply == (if old(self).pending_reply is None {
                Some(value)
            } else {
                old(self).pending_reply
            }),
            final(self).params == old(self).params,
            final(self).meta == old(self).meta,
            final(self).effects == old(self).effects,
    {
        if self.pending_reply.is_none() {
            self.pending_reply = Some(value);
        }
    }

    /// Buffers an emit effect.
    pub fn emit(&mut self, event: String, payload: Value)
        ensures
            final(self).effects_view() =~= old(self).effects_view().push(
                EffectModel::Emit(event@, payload@),
            ),
            final(self).params == old(self).params,
            final(self).meta == old(self).meta,
            final(self).pending_reply == old(self).pending_reply,
    {
        let ghost before = self.effects_view();
        self.effects.push(Effect::Emit { event, payload });
        proof {
            assert(self.effects_view() =~= before.push(self.effects@.last()@));
        }
    }

    /// Buffers a broadcast effect.
    pub fn broadcast(&mut self, event: String, payload: Value)
        ensures
            final(self).effects_view() =~= old(self).effects_view().push(
                EffectModel::Broadcast(event@, payload@),
            ),
            final(self).params == old(self).params,
            final(self).meta == old(self).meta,
            final(self).pending_reply == old(self).pending_reply,
    {
        let ghost before = self.effects_view();
        self.effects.push(Effect::Broadcast { event, payload });
        proof {
            assert(self.effects_view() =~= before.push(self.effects@.last()@));
        }
    }
}

impl EventContext {
    /// The models of the buffered effects, oldest first.
    pub open spec fn effects_view(&self) -> Seq<EffectModel> {
        self.effects@.map_values(|e: Effect| e@)
    }

    /// A fresh context with no effects buffered.
    pub fn new(params: Value, meta: Meta) -> (ctx: EventContext)
        ensures
            ctx.params == params,
            ctx.meta == meta,
            ctx.effects_view() =~= Seq::<EffectModel>::empty(),
    {
        let ctx = EventContext { params, meta, effects: Vec::new() };
        proof {
            assert(ctx.effects_view() =~= Seq::<EffectModel>::empty());
        }
        ctx
    }

    /// Buffers an emit effect.
    pub fn emit(&mut self, event: String, payload: Value)
        ensures
            final(self).effects_view() =~= old(self).effects_view().push(
                EffectModel::Emit(event@, payload@),
            ),
            final(self).params == old(self).params,
            final(self).meta == old(self).meta,
    {
        let ghost before = self.effects_view();
        self.effects.push(Effect::Emit { event, payload });
        proof {
            assert(self.effects_view() =~= before.push(self.effects@.last()@));
        }
    }

    /// Buffers a broadcast effect.
    pub fn broadcast(&mut self, event: String, payload: Value)
        ensures
            final(self).effects_view() =~= old(self).effects_view().push(
                EffectModel::Broadcast(event@, payload@),
            ),
            final(self).params == old(self).params,
            final(self).meta == old(self).meta,
    {
        let ghost before = self.effects_view();
        self.effects.push(Effect::Broadcast { event, payload });
        proof {
            assert(self.effects_view() =~= before.push(self.effects@.last()@));
        }
    }
}

} // verus!
