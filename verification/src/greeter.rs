//! Assembly of this node's demonstration service: the `rustGreeter`
//! service with its two actions and two event subscriptions, and a
//! broker that has it registered.  Mirrors what the node bootstrap does
//! before the transport starts delivering envelopes.

use crate::registry::{
    Action, ActionHandler, ActionModel, Broker, Event, EventHandler, EventModel, Service,
};
use vstd::prelude::*;
use vstd::string::StringExecFns;

verus! {

/// The `rustGreeter` service: actions `add` and `squaredSum`, events
/// `emitHi` and `broadcastName`.
pub fn greeter_service() -> (s: Service)
    ensures
        s.name@ == "rustGreeter"@,
        s.wf(),
        s@.actions =~= seq![
            (ActionModel { name: "add"@, handler: ActionHandler::Add }),
            (ActionModel { name: "squaredSum"@, handler: ActionHandler::SquaredSum }),
        ],
        s@.events =~= seq![
            (EventModel { name: "emitHi"@, handler: EventHandler::EmitHi }),
            (EventModel { name: "broadcastName"@, handler: EventHandler::BroadcastName }),
        ],
{
    proof {
        reveal_strlit("add");
        reveal_strlit("squaredSum");
    }
    let mut s = Service::new(String::from_str("rustGreeter"));
    let r1 = s.try_add_action(Action::new(String::from_str("add"), ActionHandler::Add));
    match r1 {
        Ok(_) => {},
        Err(_) => {
            proof {
                assert(false);
            }
        },
    }
    proof {
        let acts = s@.actions;
        assert(acts.len() == 1);
        assert(acts[0].name == "add"@);
        assert("add"@.len() != "squaredSum"@.len());
        assert(!crate::registry::has_action_name(acts, "squaredSum"@));
    }
    let r2 = s.try_add_action(
        Action::new(String::from_str("squaredSum"), ActionHandler::SquaredSum),
    );
    match r2 {
        Ok(_) => {},
        Err(_) => {
            proof {
                assert(false);
            }
        },
    }
    s.add_event(Event::new(String::from_str("emitHi"), EventHandler::EmitHi));
    s.add_event(Event::new(String::from_str("broadcastName"), EventHandler::BroadcastName));
    s
}

/// A broker with exactly the `rustGreeter` service registered: the
/// node's registry as the transport starts delivering.
pub fn greeter_broker() -> (b: Broker)
    ensures
        b@.wf(),
        b@.actions =~= seq![
            (ActionModel { name: "add"@, handler: ActionHandler::Add }),
            (ActionModel { name: "squaredSum"@, handler: ActionHandler::SquaredSum }),
        ],
        b@.events =~= seq![
            (EventModel { name: "emitHi"@, handler: EventHandler::EmitHi }),
            (EventModel { name: "broadcastName"@, handler: EventHandler::BroadcastName }),
        ],
{
    let mut b = Broker::new();
    let s = greeter_service();
    let ghost sm = s@;
    proof {
        let e = Seq::<ActionModel>::empty();
        let acts = sm.actions;
        assert(!crate::registry::has_action_name(e, acts[0].name));
        assert(crate::registry::first_action_conflict(e, acts)
            == crate::registry::first_action_conflict(e, acts.drop_first()));
        assert(!crate::registry::has_action_name(e, acts.drop_first()[0].name));
        assert(crate::registry::first_action_conflict(e, acts.drop_first())
            == crate::registry::first_action_conflict(e, acts.drop_first().drop_first()));
        assert(acts.drop_first().drop_first() =~= Seq::<ActionModel>::empty());
        assert(crate::registry::first_action_conflict(e, Seq::<ActionModel>::empty()) is None);
    }
    let r = b.add_service(s);
    match r {
        Ok(_) => {},
        Err(_) => {
            proof {
                assert(false);
            }
        },
    }
    proof {
        assert(b@.actions =~= Seq::<ActionModel>::empty() + sm.actions);
        assert(b@.events =~= Seq::<EventModel>::empty() + sm.events);
    }
    b
}

} // verus!
