use taurpc::{
    build_dispatch_table, Arg, Dispatched, EnqueueEffect, Invocation, IpcMethod, MethodAttrs,
    Namespace, NamespaceWorker, Outcome, QueuePolicy, ResponseSink, Router, TauRpcHandler,
};

fn method(name: &str, args: &[&str]) -> IpcMethod {
    IpcMethod {
        name: name.to_string(),
        args: args.iter().map(|a| Arg::from_name(a.to_string())).collect(),
        attrs: MethodAttrs::default(),
    }
}

/// Tags each response with the payload so completions are tell-apart-able.
struct TagHandler;

impl TauRpcHandler for TagHandler {
    fn handle_incoming_request(&mut self, _method: &str, payload: &Vec<u8>) -> Vec<u8> {
        payload.clone()
    }
}

fn inv(cmd: &str, payload: Vec<u8>, id: u64) -> Invocation {
    Invocation::new(cmd.to_string(), payload, ResponseSink::new(id))
}

#[test]
fn fifo_resolution_order_equals_arrival_order() {
    let table = build_dispatch_table(vec![method("tag", &["x"])]).unwrap();
    let mut router = Router::with_policy(QueuePolicy::Blocking, 8);
    router
        .merge(Namespace {
            path_prefix: "ns".to_string(),
            display_name: "Ns".to_string(),
            table,
            export_path: None,
            handler: TagHandler,
        })
        .unwrap();
    let c1 = inv("TauRPC__ns.tag", vec![1], 101);
    let c2 = inv("TauRPC__ns.tag", vec![2], 102);
    let c3 = inv("TauRPC__ns.tag", vec![3], 103);
    assert!(matches!(
        router.on_command(c1),
        Dispatched::Delivered(EnqueueEffect::Accepted)
    ));
    assert!(matches!(
        router.on_command(c2),
        Dispatched::Delivered(EnqueueEffect::Accepted)
    ));
    assert!(matches!(
        router.on_command(c3),
        Dispatched::Delivered(EnqueueEffect::Accepted)
    ));
    let cs = router.run_pending("ns").unwrap();
    assert_eq!(cs.len(), 3);
    assert_eq!(
        cs.iter().map(|c| c.sink_id).collect::<Vec<_>>(),
        vec![101, 102, 103]
    );
    assert_eq!(cs[0].outcome, Outcome::Resolved(vec![1]));
    assert_eq!(cs[1].outcome, Outcome::Resolved(vec![2]));
    assert_eq!(cs[2].outcome, Outcome::Resolved(vec![3]));
}

#[test]
fn unbounded_queue_never_refuses() {
    let table = build_dispatch_table(vec![method("tag", &["x"])]).unwrap();
    let mut w = NamespaceWorker::spawn(TagHandler, table, QueuePolicy::Unbounded, 1);
    for i in 0..100u64 {
        assert!(matches!(
            w.enqueue(inv("TauRPC__tag", vec![0], i)),
            EnqueueEffect::Accepted
        ));
    }
    assert_eq!(w.pending(), 100);
    let cs = w.run_pending();
    assert_eq!(cs.len(), 100);
    assert_eq!(cs[0].sink_id, 0);
    assert_eq!(cs[99].sink_id, 99);
}

#[test]
fn blocking_queue_hands_back_when_full() {
    let table = build_dispatch_table(vec![method("tag", &["x"])]).unwrap();
    let mut w = NamespaceWorker::spawn(TagHandler, table, QueuePolicy::Blocking, 1);
    assert!(matches!(
        w.enqueue(inv("TauRPC__tag", vec![1], 1)),
        EnqueueEffect::Accepted
    ));
    match w.enqueue(inv("TauRPC__tag", vec![2], 2)) {
        EnqueueEffect::Refused(back) => {
            // The refused invocation is intact: nothing was lost.
            assert_eq!(back.command, "TauRPC__tag");
            assert_eq!(back.payload, vec![2]);
            assert_eq!(back.sink.sink_id(), 2);
        }
        other => panic!("expected a refusal, got {:?}", other),
    }
    // The queued invocation still completes.
    let cs = w.run_pending();
    assert_eq!(cs.len(), 1);
    assert_eq!(cs[0].sink_id, 1);
}

#[test]
fn lossy_queue_drops_oldest_with_overload_rejection() {
    let table = build_dispatch_table(vec![method("tag", &["x"])]).unwrap();
    let mut w = NamespaceWorker::spawn(TagHandler, table, QueuePolicy::Lossy, 1);
    assert!(matches!(
        w.enqueue(inv("TauRPC__tag", vec![1], 21)),
        EnqueueEffect::Accepted
    ));
    match w.enqueue(inv("TauRPC__tag", vec![2], 22)) {
        EnqueueEffect::AcceptedDroppingOldest(c) => {
            // The dropped invocation's sink is still resolved: rejected
            // with a distinguishable overload diagnostic, never leaked.
            assert_eq!(c.sink_id, 21);
            assert_eq!(
                c.outcome,
                Outcome::Rejected("message `TauRPC__tag` dropped: worker overloaded".to_string())
            );
        }
        other => panic!("expected a drop, got {:?}", other),
    }
    // The newer invocation survived and completes normally.
    let cs = w.run_pending();
    assert_eq!(cs.len(), 1);
    assert_eq!(cs[0].sink_id, 22);
    assert_eq!(cs[0].outcome, Outcome::Resolved(vec![2]));
}

#[test]
fn step_on_empty_queue_is_none() {
    let table = build_dispatch_table(vec![method("tag", &["x"])]).unwrap();
    let mut w = NamespaceWorker::spawn(TagHandler, table, QueuePolicy::Unbounded, 1);
    assert!(w.step().is_none());
}

#[test]
fn unknown_method_rejection_does_not_stop_the_worker() {
    let table = build_dispatch_table(vec![method("tag", &["x"])]).unwrap();
    let mut w = NamespaceWorker::spawn(TagHandler, table, QueuePolicy::Unbounded, 1);
    w.enqueue(inv("TauRPC__missing", Vec::new(), 1));
    w.enqueue(inv("TauRPC__tag", vec![9], 2));
    let c = w.step().unwrap();
    assert_eq!(
        c.outcome,
        Outcome::Rejected("message `TauRPC__missing` not found".to_string())
    );
    // The worker keeps processing after a rejection.
    let c = w.step().unwrap();
    assert_eq!(c.outcome, Outcome::Resolved(vec![9]));
}

#[test]
fn event_entries_are_not_invokable() {
    let event = IpcMethod {
        name: "state_changed".to_string(),
        args: vec![Arg::from_name("new_state".to_string())],
        attrs: MethodAttrs {
            skip: false,
            alias: None,
            is_event: true,
        },
    };
    let table = build_dispatch_table(vec![event, method("tag", &["x"])]).unwrap();
    let mut w = NamespaceWorker::spawn(TagHandler, table, QueuePolicy::Unbounded, 1);
    w.enqueue(inv("TauRPC__state_changed", Vec::new(), 1));
    let c = w.step().unwrap();
    assert_eq!(
        c.outcome,
        Outcome::Rejected("message `TauRPC__state_changed` not found".to_string())
    );
}
