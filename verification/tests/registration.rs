use service_core::registry::{
    Action, ActionHandler, Broker, Event, EventHandler, RegistrationError, Service,
};

fn svc(name: &str) -> Service {
    Service::new(name.to_string())
}

#[test]
fn duplicate_action_name_conflicts() {
    let mut s = svc("calc");
    assert!(s
        .try_add_action(Action::new("add".to_string(), ActionHandler::Add))
        .is_ok());
    let second = s.try_add_action(Action::new("add".to_string(), ActionHandler::SquaredSum));
    assert_eq!(
        second,
        Err(RegistrationError::DuplicateAction("add".to_string()))
    );
    // The first handler is kept, not silently replaced.
    assert_eq!(s.actions.len(), 1);
    assert_eq!(s.actions[0].handler, ActionHandler::Add);
}

#[test]
fn distinct_action_names_register() {
    let mut s = svc("calc");
    assert!(s
        .try_add_action(Action::new("add".to_string(), ActionHandler::Add))
        .is_ok());
    assert!(s
        .try_add_action(Action::new("squaredSum".to_string(), ActionHandler::SquaredSum))
        .is_ok());
    assert_eq!(s.actions.len(), 2);
}

#[test]
fn event_registration_always_appends() {
    let mut s = svc("notify");
    s.add_event(Event::new("hi".to_string(), EventHandler::EmitHi));
    s.add_event(Event::new("hi".to_string(), EventHandler::AlwaysFail));
    s.add_event(Event::new("hi".to_string(), EventHandler::EmitHi));
    assert_eq!(s.events.len(), 3);
    let mut b = Broker::new();
    b.add_service(s).unwrap();
    let handlers = b.resolve_event(&"hi".to_string());
    assert_eq!(
        handlers,
        vec![
            EventHandler::EmitHi,
            EventHandler::AlwaysFail,
            EventHandler::EmitHi
        ]
    );
}

#[test]
fn duplicate_service_name_conflicts() {
    let mut b = Broker::new();
    b.add_service(svc("one")).unwrap();
    let r = b.add_service(svc("one"));
    assert_eq!(
        r,
        Err(RegistrationError::DuplicateService("one".to_string()))
    );
    assert_eq!(b.services.len(), 1);
}

#[test]
fn cross_service_action_conflict() {
    let mut b = Broker::new();
    let mut s1 = svc("first");
    s1.try_add_action(Action::new("add".to_string(), ActionHandler::Add))
        .unwrap();
    b.add_service(s1).unwrap();

    let mut s2 = svc("second");
    s2.try_add_action(Action::new("add".to_string(), ActionHandler::SquaredSum))
        .unwrap();
    let r = b.add_service(s2);
    assert_eq!(
        r,
        Err(RegistrationError::DuplicateAction("add".to_string()))
    );
    // The broker is unchanged: still exactly the first registration.
    assert_eq!(b.actions.len(), 1);
    assert_eq!(b.actions[0].handler, ActionHandler::Add);
    assert_eq!(b.services.len(), 1);
}

#[test]
fn resolve_action_exact_match_only() {
    let mut b = Broker::new();
    let mut s = svc("calc");
    s.try_add_action(Action::new("add".to_string(), ActionHandler::Add))
        .unwrap();
    b.add_service(s).unwrap();
    assert_eq!(b.resolve_action(&"add".to_string()), Some(ActionHandler::Add));
    assert_eq!(b.resolve_action(&"Add".to_string()), None);
    assert_eq!(b.resolve_action(&"ad".to_string()), None);
    assert_eq!(b.resolve_event(&"add".to_string()), vec![]);
}
