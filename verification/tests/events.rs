use taurpc::{Delivery, EventEnvelope, EventTrigger, Windows};

fn envelope(d: &Delivery) -> &EventEnvelope {
    match d {
        Delivery::Broadcast(e) => e,
        Delivery::ToWindow(_, e) => e,
    }
}

#[test]
fn default_scope_broadcasts_once() {
    let t = EventTrigger::new("events".to_string());
    let plan = t.call("state_changed", b"NEW".to_vec());
    assert_eq!(plan.len(), 1);
    match &plan[0] {
        Delivery::Broadcast(e) => {
            assert_eq!(e.event_name, "events.state_changed");
            assert_eq!(e.payload, b"NEW".to_vec());
        }
        other => panic!("expected a broadcast, got {:?}", other),
    }
}

#[test]
fn root_namespace_event_name_is_unqualified() {
    let t = EventTrigger::new(String::new());
    let plan = t.call("test_ev", Vec::new());
    assert_eq!(envelope(&plan[0]).event_name, "test_ev");
}

#[test]
fn scope_one_delivers_to_that_client_only() {
    let t = EventTrigger::new_scoped("events".to_string(), Windows::One("main".to_string()));
    let plan = t.call("test_ev", b"p".to_vec());
    assert_eq!(plan.len(), 1);
    match &plan[0] {
        Delivery::ToWindow(label, e) => {
            assert_eq!(label, "main");
            assert_eq!(e.event_name, "events.test_ev");
            assert_eq!(e.payload, b"p".to_vec());
        }
        other => panic!("expected a targeted delivery, got {:?}", other),
    }
    // No delivery in the plan targets any other client.
    let to_other = plan
        .iter()
        .filter(|d| matches!(d, Delivery::ToWindow(l, _) if l != "main"))
        .count();
    assert_eq!(to_other, 0);
    let broadcasts = plan
        .iter()
        .filter(|d| matches!(d, Delivery::Broadcast(_)))
        .count();
    assert_eq!(broadcasts, 0);
}

#[test]
fn scope_many_delivers_to_each_exactly_once_in_order() {
    let t = EventTrigger::new_scoped(
        "events".to_string(),
        Windows::N(vec!["w1".to_string(), "w2".to_string()]),
    );
    let plan = t.call("multiple_args", b"xy".to_vec());
    assert_eq!(plan.len(), 2);
    let targets: Vec<&str> = plan
        .iter()
        .map(|d| match d {
            Delivery::ToWindow(l, _) => l.as_str(),
            other => panic!("expected a targeted delivery, got {:?}", other),
        })
        .collect();
    assert_eq!(targets, vec!["w1", "w2"]);
    assert_eq!(targets.iter().filter(|t| **t == "w1").count(), 1);
    assert_eq!(targets.iter().filter(|t| **t == "w2").count(), 1);
    // Every delivery carries the same envelope.
    assert_eq!(envelope(&plan[0]), envelope(&plan[1]));
    assert_eq!(envelope(&plan[0]).event_name, "events.multiple_args");
}

#[test]
fn send_to_narrows_without_mutating_the_receiver() {
    let t = EventTrigger::new("api.ui".to_string());
    let narrowed = t.send_to(Windows::One("main".to_string()));
    let narrowed_plan = narrowed.call("test_ev", Vec::new());
    assert!(matches!(&narrowed_plan[0], Delivery::ToWindow(l, _) if l == "main"));
    // The original trigger still broadcasts.
    let original_plan = t.call("test_ev", Vec::new());
    assert!(matches!(&original_plan[0], Delivery::Broadcast(_)));
    assert_eq!(envelope(&original_plan[0]).event_name, "api.ui.test_ev");
}

#[test]
fn new_scoped_from_trigger_keeps_the_prefix() {
    let t = EventTrigger::new("events".to_string());
    let scoped = EventTrigger::new_scoped_from_trigger(t, Windows::N(vec!["a".to_string()]));
    let plan = scoped.call("vec_test", Vec::new());
    assert_eq!(plan.len(), 1);
    assert!(matches!(&plan[0], Delivery::ToWindow(l, _) if l == "a"));
    assert_eq!(envelope(&plan[0]).event_name, "events.vec_test");
}

#[test]
fn empty_scope_list_plans_nothing() {
    let t = EventTrigger::new_scoped("events".to_string(), Windows::N(Vec::new()));
    let plan = t.call("test_ev", Vec::new());
    assert_eq!(plan.len(), 0);
}
