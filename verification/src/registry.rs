//! Handler registry: services, their actions and events, and the broker
//! that owns them all.
//!
//! An action name resolves to exactly one handler; registering a name a
//! second time fails with a conflict error naming it, and never replaces
//! the first handler.  An event name owns an ordered list of handlers:
//! registration always appends, and the first-registered handler runs
//! first.  Everything is assembled before the node starts taking inbound
//! envelopes and is not mutated afterwards; lookup is by exact name.

use vstd::prelude::*;

verus! {

/// The action handlers this node offers.
#[derive(Debug, PartialEq, Eq, Structural, Clone, Copy)]
pub enum ActionHandler {
    /// Replies with the sum of the two summands of an `AddMessage`.
    Add,
    /// Replies with the sum of the squares of a `SquaredSumMessage`.
    SquaredSum,
}

/// The event handlers this node offers.
#[derive(Debug, PartialEq, Eq, Structural, Clone, Copy)]
pub enum EventHandler {
    /// Emits a `test` event with an empty payload.
    EmitHi,
    /// Broadcasts the decoded name under `testWithParam`.
    BroadcastName,
    /// Signals failure on every invocation; exercises the dispatch
    /// core's failure isolation.
    AlwaysFail,
}

/// A named action: the name resolves to exactly this handler.
#[derive(Debug, PartialEq)]
pub struct Action {
    pub name: String,
    pub handler: ActionHandler,
}

/// One subscription of a handler to an event name.
#[derive(Debug, PartialEq)]
pub struct Event {
    pub name: String,
    pub handler: EventHandler,
}

/// Mathematical model of an `Action`.
pub struct ActionModel {
    pub name: Seq<char>,
    pub handler: ActionHandler,
}

/// Mathematical model of an `Event`.
pub struct EventModel {
    pub name: Seq<char>,
    pub handler: EventHandler,
}

impl View for Action {
    type V = ActionModel;

    open spec fn view(&self) -> ActionModel {
        ActionModel { name: self.name@, handler: self.handler }
    }
}

impl View for Event {
    type V = EventModel;

    open spec fn view(&self) -> EventModel {
        EventModel { name: self.name@, handler: self.handler }
    }
}

impl Action {
    pub fn new(name: String, handler: ActionHandler) -> (a: Action)
        ensures
            a.name == name,
            a.handler == handler,
    {
        Action { name, handler }
    }
}

impl Event {
    pub fn new(name: String, handler: EventHandler) -> (e: Event)
        ensures
            e.name == name,
            e.handler == handler,
    {
        Event { name, handler }
    }
}

/// Why a registration was refused.
#[derive(Debug, PartialEq)]
pub enum RegistrationError {
    /// An action of this name already has a handler.
    DuplicateAction(String),
    /// A service of this name is already registered.
    DuplicateService(String),
}

/// Mathematical model of a `RegistrationError`.
pub enum RegistrationErrorModel {
    DuplicateAction(Seq<char>),
    DuplicateService(Seq<char>),
}

impl View for RegistrationError {
    type V = RegistrationErrorModel;

    open spec fn view(&self) -> RegistrationErrorModel {
        match self {
            RegistrationError::DuplicateAction(n) => RegistrationErrorModel::DuplicateAction(n@),
            RegistrationError::DuplicateService(n) => RegistrationErrorModel::DuplicateService(n@),
        }
    }
}

/// Whether some action in `actions` is named `name`.
pub open spec fn has_action_name(actions: Seq<ActionModel>, name: Seq<char>) -> bool {
    exists|i: int| 0 <= i < actions.len() && actions[i].name == name
}

/// Whether some string in `names` equals `name`.
pub open spec fn has_name(names: Seq<Seq<char>>, name: Seq<char>) -> bool {
    exists|i: int| 0 <= i < names.len() && names[i] == name
}

fn find_action_name(actions: &Vec<Action>, name: &String) -> (r: bool)
    ensures
        r == has_action_name(actions@.map_values(|a: Action| a@), name@),
{
    let ghost model: Seq<ActionModel> = actions@.map_values(|a: Action| a@);
    let mut i: usize = 0;
    while i < actions.len()
        invariant
            0 <= i <= actions.len(),
            model == actions@.map_values(|a: Action| a@),
            forall|j: int| 0 <= j < i ==> model[j].name != name@,
        decreases actions.len() - i,
    {
        if actions[i].name == *name {
            proof {
                assert(0 <= i < model.len() && model[i as int].name == name@);
            }
            return true;
        }
        i += 1;
    }
    false
}

/// A service: a unique name owning actions and event subscriptions,
/// assembled once and then registered with the broker.
#[derive(Debug, PartialEq)]
pub struct Service {
    pub name: String,
    pub actions: Vec<Action>,
    pub events: Vec<Event>,
}

/// Mathematical model of a `Service`.
pub struct ServiceModel {
    pub name: Seq<char>,
    pub actions: Seq<ActionModel>,
    pub events: Seq<EventModel>,
}

impl View for Service {
    type V = ServiceModel;

    open spec fn view(&self) -> ServiceModel {
        ServiceModel {
            name: self.name@,
            actions: self.actions@.map_values(|a: Action| a@),
            events: self.events@.map_values(|e: Event| e@),
        }
    }
}

impl Service {
    /// All action names of the service are distinct.
    pub open spec fn wf(&self) -> bool {
        forall|i: int, j: int|
            0 <= i < j < self@.actions.len() ==> self@.actions[i].name != self@.actions[j].name
    }

    /// An empty service of the given name.
    pub fn new(name: String) -> (s: Service)
        ensures
            s.name == name,
            s@.actions =~= Seq::<ActionModel>::empty(),
            s@.events =~= Seq::<EventModel>::empty(),
            s.wf(),
    {
        let s = Service { name, actions: Vec::new(), events: Vec::new() };
        proof {
            assert(s@.actions =~= Seq::<ActionModel>::empty());
            assert(s@.events =~= Seq::<EventModel>::empty());
        }
        s
    }

    /// Registers an action.  Fails, changing nothing, when the name
    /// already has a handler: one winner, never a silent override.
    pub fn try_add_action(&mut self, action: Action) -> (r: Result<(), RegistrationError>)
        ensures
            r is Ok <==> !has_action_name(old(self)@.actions, action.name@),
            match r {
                Ok(_) => {
                    &&& final(self)@.actions =~= old(self)@.actions.push(action@)
                    &&& final(self)@.events == old(self)@.events
                    &&& final(self).name == old(self).name
                    &&& old(self).wf() ==> final(self).wf()
                },
                Err(e) => {
                    &&& *final(self) == *old(self)
                    &&& e@ == RegistrationErrorModel::DuplicateAction(action.name@)
                },
            },
    {
        if find_action_name(&self.actions, &action.name) {
            return Err(RegistrationError::DuplicateAction(action.name));
        }
        let ghost before = self@.actions;
        self.actions.push(action);
        proof {
            assert(self@.actions =~= before.push(action@));
        }
        Ok(())
    }

    /// Subscribes a handler to an event name.  Always succeeds and
    /// appends: handlers run in registration order.
    pub fn add_event(&mut self, event: Event)
        ensures
            final(self)@.events =~= old(self)@.events.push(event@),
            final(self)@.actions == old(self)@.actions,
            final(self).name == old(self).name,
    {
        let ghost before = self@.events;
        self.events.push(event);
        proof {
            assert(self@.events =~= before.push(event@));
        }
    }
}

/// Mathematical model of a `Broker`'s registry.
pub struct BrokerModel {
    pub services: Seq<Seq<char>>,
    pub actions: Seq<ActionModel>,
    pub events: Seq<EventModel>,
}

impl BrokerModel {
    /// Service names are distinct and action names are distinct.
    pub open spec fn wf(self) -> bool {
        &&& forall|i: int, j: int|
            0 <= i < j < self.services.len() ==> self.services[i] != self.services[j]
        &&& forall|i: int, j: int|
            0 <= i < j < self.actions.len() ==> self.actions[i].name != self.actions[j].name
    }
}

/// The broker: owner of the whole registry.  Built once at startup from
/// registered services; the dispatch core resolves handlers against it.
#[derive(Debug)]
pub struct Broker {
    pub services: Vec<String>,
    pub actions: Vec<Action>,
    pub events: Vec<Event>,
}

impl View for Broker {
    type V = BrokerModel;

    open spec fn view(&self) -> BrokerModel {
        BrokerModel {
            services: self.services@.map_values(|n: String| n@),
            actions: self.actions@.map_values(|a: Action| a@),
            events: self.events@.map_values(|e: Event| e@),
        }
    }
}

/// The name of the first action in `incoming` that clashes with a name
/// in `existing`, if any.
pub open spec fn first_action_conflict(
    existing: Seq<ActionModel>,
    incoming: Seq<ActionModel>,
) -> Option<Seq<char>>
    decreases incoming.len(),
{
    if incoming.len() == 0 {
        None
    } else if has_action_name(existing, incoming[0].name) {
        Some(incoming[0].name)
    } else {
        first_action_conflict(existing, incoming.drop_first())
    }
}

proof fn lemma_first_conflict_skip(existing: Seq<ActionModel>, incoming: Seq<ActionModel>, i: int)
    requires
        0 <= i <= incoming.len(),
        forall|j: int| 0 <= j < i ==> !has_action_name(existing, incoming[j].name),
    ensures
        first_action_conflict(existing, incoming) == first_action_conflict(
            existing,
            incoming.skip(i),
        ),
    decreases i,
{
    if i > 0 {
        lemma_first_conflict_skip(existing, incoming, i - 1);
        let rest = incoming.skip(i - 1);
        assert(rest[0] == incoming[i - 1]);
        assert(rest.drop_first() =~= incoming.skip(i));
        assert(first_action_conflict(existing, rest) == first_action_conflict(
            existing,
            rest.drop_first(),
        )) by {
            assert(rest.len() > 0);
            assert(!has_action_name(existing, rest[0].name));
        }
    } else {
        assert(incoming.skip(0) =~= incoming);
    }
}

fn find_service_name(names: &Vec<String>, name: &String) -> (r: bool)
    ensures
        r == has_name(names@.map_values(|n: String| n@), name@),
{
    let ghost model: Seq<Seq<char>> = names@.map_values(|n: String| n@);
    let mut i: usize = 0;
    while i < names.len()
        invariant
            0 <= i <= names.len(),
            model == names@.map_values(|n: String| n@),
            forall|j: int| 0 <= j < i ==> model[j] != name@,
        decreases names.len() - i,
    {
        if names[i] == *name {
            proof {
                assert(0 <= i < model.len() && model[i as int] == name@);
            }
            return true;
        }
        i += 1;
    }
    false
}

impl Broker {
    /// A broker with nothing registered.
    pub fn new() -> (b: Broker)
        ensures
            b@.services =~= Seq::<Seq<char>>::empty(),
            b@.actions =~= Seq::<ActionModel>::empty(),
            b@.events =~= Seq::<EventModel>::empty(),
            b@.wf(),
    {
        let b = Broker { services: Vec::new(), actions: Vec::new(), events: Vec::new() };
        proof {
            assert(b@.services =~= Seq::<Seq<char>>::empty());
            assert(b@.actions =~= Seq::<ActionModel>::empty());
            assert(b@.events =~= Seq::<EventModel>::empty());
        }
        b
    }

    /// Registers a whole service: its name, then all its actions and
    /// event subscriptions.  Fails, changing nothing, when the service
    /// name is taken or any of its action names already has a handler.
    pub fn add_service(&mut self, service: Service) -> (r: Result<(), RegistrationError>)
        requires
            service.wf(),
            old(self)@.wf(),
        ensures
            r is Ok <==> {
                &&& !has_name(old(self)@.services, service.name@)
                &&& first_action_conflict(old(self)@.actions, service@.actions) is None
            },
            match r {
                Ok(_) => {
                    &&& final(self)@.services =~= old(self)@.services.push(service.name@)
                    &&& final(self)@.actions =~= old(self)@.actions + service@.actions
                    &&& final(self)@.events =~= old(self)@.events + service@.events
                    &&& final(self)@.wf()
                },
                Err(e) => {
                    &&& *final(self) == *old(self)
                    &&& e@ == (if has_name(old(self)@.services, service.name@) {
                        RegistrationErrorModel::DuplicateService(service.name@)
                    } else {
                        RegistrationErrorModel::DuplicateAction(
                            first_action_conflict(old(self)@.actions, service@.actions)->Some_0,
                        )
                    })
                },
            },
    {
        if find_service_name(&self.services, &service.name) {
            return Err(RegistrationError::DuplicateService(service.name));
        }
        let ghost incoming = service@.actions;
        let mut i: usize = 0;
        while i < service.actions.len()
            invariant
                0 <= i <= service.actions.len(),
                *self == *old(self),
                !has_name(old(self)@.services, service.name@),
                incoming == service.actions@.map_values(|a: Action| a@),
                forall|j: int|
                    0 <= j < i ==> !has_action_name(self@.actions, #[trigger] incoming[j].name),
            decreases service.actions.len() - i,
        {
            if find_action_name(&self.actions, &service.actions[i].name) {
                proof {
                    lemma_first_conflict_skip(self@.actions, incoming, i as int);
                    let rest = incoming.skip(i as int);
                    assert(rest[0] == incoming[i as int]);
                    assert(incoming[i as int] == service.actions@[i as int]@);
                    assert(first_action_conflict(self@.actions, rest) == Some(rest[0].name)) by {
                        assert(rest.len() > 0);
                        assert(has_action_name(self@.actions, rest[0].name));
                    }
                }
                return Err(
                    RegistrationError::DuplicateAction(service.actions[i].name.clone()),
                );
            }
            i += 1;
        }
        proof {
            lemma_first_conflict_skip(self@.actions, incoming, incoming.len() as int);
            assert(incoming.skip(incoming.len() as int) =~= Seq::<ActionModel>::empty());
        }
        let ghost old_actions = self@.actions;
        let ghost old_events = self@.events;
        let ghost old_services = self@.services;
        let mut service = service;
        let ghost svc_events = service@.events;
        self.actions.append(&mut service.actions);
        self.events.append(&mut service.events);
        self.services.push(service.name);
        proof {
            assert(self@.actions =~= old_actions + incoming);
            assert(self@.events =~= old_events + svc_events);
            assert(self@.services =~= old_services.push(service.name@));
            assert forall|i2: int, j2: int| 0 <= i2 < j2 < self@.actions.len() implies self@
                .actions[i2].name != self@.actions[j2].name by {
                if j2 >= old_actions.len() {
                    if i2 >= old_actions.len() {
                    } else {
                        assert(!has_action_name(old_actions, incoming[j2 - old_actions.len()].name));
                    }
                }
            }
        }
        Ok(())
    }

    /// The handler of the first action named `name`, if any.
    pub open spec fn resolve_action_model(self, name: Seq<char>) -> Option<ActionHandler> {
        action_lookup(self@.actions, name)
    }

    /// Resolves an action name to its handler by exact match.
    pub fn resolve_action(&self, name: &String) -> (r: Option<ActionHandler>)
        ensures
            r == action_lookup(self@.actions, name@),
    {
        let ghost model = self@.actions;
        let mut i: usize = 0;
        while i < self.actions.len()
            invariant
                0 <= i <= self.actions.len(),
                model == self.actions@.map_values(|a: Action| a@),
                forall|j: int| 0 <= j < i ==> model[j].name != name@,
            decreases self.actions.len() - i,
        {
            if self.actions[i].name == *name {
                proof {
                    lemma_action_lookup_skip(model, name@, i as int);
                    assert(model.skip(i as int)[0] == model[i as int]);
                }
                return Some(self.actions[i].handler);
            }
            i += 1;
        }
        proof {
            lemma_action_lookup_skip(model, name@, model.len() as int);
            assert(model.skip(model.len() as int) =~= Seq::<ActionModel>::empty());
        }
        None
    }

    /// All handlers subscribed to `name`, in registration order.
    pub fn resolve_event(&self, name: &String) -> (r: Vec<EventHandler>)
        ensures
            r@ == matching_event_handlers(self@.events, name@),
    {
        let ghost model = self@.events;
        let mut r: Vec<EventHandler> = Vec::new();
        let mut i: usize = 0;
        while i < self.events.len()
            invariant
                0 <= i <= self.events.len(),
                model == self.events@.map_values(|e: Event| e@),
                r@ == matching_event_handlers(model.take(i as int), name@),
            decreases self.events.len() - i,
        {
            proof {
                assert(model.take(i as int + 1).drop_last() =~= model.take(i as int));
                assert(model.take(i as int + 1).last() == model[i as int]);
            }
            if self.events[i].name == *name {
                r.push(self.events[i].handler);
            }
            i += 1;
        }
        proof {
            assert(model.take(model.len() as int) =~= model);
        }
        r
    }
}

/// The handler of the first action named `name`, if any.
pub open spec fn action_lookup(actions: Seq<ActionModel>, name: Seq<char>) -> Option<ActionHandler>
    decreases actions.len(),
{
    if actions.len() == 0 {
        None
    } else if actions[0].name == name {
        Some(actions[0].handler)
    } else {
        action_lookup(actions.drop_first(), name)
    }
}

proof fn lemma_action_lookup_skip(actions: Seq<ActionModel>, name: Seq<char>, i: int)
    requires
        0 <= i <= actions.len(),
        forall|j: int| 0 <= j < i ==> actions[j].name != name,
    ensures
        action_lookup(actions, name) == action_lookup(actions.skip(i), name),
    decreases i,
{
    if i > 0 {
        lemma_action_lookup_skip(actions, name, i - 1);
        let rest = actions.skip(i - 1);
        assert(rest[0] == actions[i - 1]);
        assert(rest.drop_first() =~= actions.skip(i));
        assert(action_lookup(rest, name) == action_lookup(rest.drop_first(), name)) by {
            assert(rest.len() > 0);
            assert(rest[0].name != name);
        }
    } else {
        assert(actions.skip(0) =~= actions);
    }
}

/// The handlers subscribed to `name`, in registration order.
pub open spec fn matching_event_handlers(events: Seq<EventModel>, name: Seq<char>) -> Seq<
    EventHandler,
>
    decreases events.len(),
{
    if events.len() == 0 {
        Seq::empty()
    } else {
        matching_event_handlers(events.drop_last(), name) + (if events.last().name == name {
            seq![events.last().handler]
        } else {
            Seq::empty()
        })
    }
}

} // verus!
