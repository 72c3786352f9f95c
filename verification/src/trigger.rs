//! Outbound events.
//!
//! An [`EventTrigger`] lets application code push a named,
//! namespace-qualified event to a chosen scope of connected clients. A
//! trigger is an immutable facade: narrowing the scope produces a new
//! trigger and never mutates the receiver, so other holders of the
//! original trigger are unaffected. Emitting builds one event envelope
//! and plans its deliveries — one broadcast, one targeted delivery, or
//! one targeted delivery per listed client, in list order.

use vstd::prelude::*;
use crate::command::{qualified_name, build_qualified_name};

verus! {

/// Scope of an outbound event: every connected client, a single client
/// identified by its window label, or an explicit list of labels.
#[derive(Debug, Clone)]
pub enum Windows {
    All,
    One(String),
    N(Vec<String>),
}

impl Default for Windows {
    /// The default scope is a broadcast to all connected clients.
    fn default() -> (r: Self)
        ensures
            r is All,
    {
        Windows::All
    }
}

/// One event as emitted: its namespace-qualified name and its serialized
/// payload. Constructed per emission; ephemeral.
#[derive(Debug, PartialEq)]
pub struct EventEnvelope {
    pub event_name: String,
    pub payload: Vec<u8>,
}

impl EventEnvelope {
    /// The mathematical content of the envelope.
    pub open spec fn model(self) -> (Seq<char>, Seq<u8>) {
        (self.event_name@, self.payload@)
    }
}

/// One delivery the transport is asked to perform: a broadcast to every
/// connected client, or a targeted delivery to one window label (a no-op
/// at the transport when that label is not connected).
#[derive(Debug, PartialEq)]
pub enum Delivery {
    Broadcast(EventEnvelope),
    ToWindow(String, EventEnvelope),
}

impl Delivery {
    /// Whether this delivery is a broadcast.
    pub open spec fn is_broadcast(self) -> bool {
        self is Broadcast
    }

    /// The targeted window label, if any.
    pub open spec fn target(self) -> Option<Seq<char>> {
        match self {
            Delivery::Broadcast(_) => None,
            Delivery::ToWindow(l, _) => Some(l@),
        }
    }

    /// The envelope this delivery carries.
    pub open spec fn envelope_model(self) -> (Seq<char>, Seq<u8>) {
        match self {
            Delivery::Broadcast(e) => e.model(),
            Delivery::ToWindow(_, e) => e.model(),
        }
    }
}

/// The delivery plan [`EventTrigger::call`] produces for an emission with
/// the given prefix, scope, method name and payload: every planned
/// delivery carries the same qualified envelope, and the targets follow
/// the scope exactly — one broadcast for `All`, one targeted delivery for
/// `One`, and one targeted delivery per label, in list order, for `N`.
pub open spec fn call_post(
    prefix: Seq<char>,
    scope: Windows,
    method: Seq<char>,
    payload: Seq<u8>,
    plan: Seq<Delivery>,
) -> bool {
    let name = qualified_name(prefix, method);
    match scope {
        Windows::All => plan.len() == 1 && plan[0].is_broadcast() && plan[0].envelope_model()
            == (name, payload),
        Windows::One(l) => plan.len() == 1 && plan[0].target() == Some(l@)
            && plan[0].envelope_model() == (name, payload),
        Windows::N(ls) => plan.len() == ls@.len() && forall|i: int|
            0 <= i < ls@.len() ==> (#[trigger] plan[i]).target() == Some(ls.deep_view()[i])
                && plan[i].envelope_model() == (name, payload),
    }
}

/// How many envelopes of this plan the client with window label `client`
/// receives, given the set of connected labels: a broadcast reaches every
/// connected client, a targeted delivery reaches its target when that
/// target is connected, and a delivery to an absent target is a no-op.
pub open spec fn delivery_count(
    plan: Seq<Delivery>,
    client: Seq<char>,
    connected: Set<Seq<char>>,
) -> nat
    decreases plan.len(),
{
    if plan.len() == 0 {
        0
    } else {
        let rest = delivery_count(plan.drop_last(), client, connected);
        let d = plan.last();
        if connected.contains(client) && (d.is_broadcast() || d.target() == Some(client)) {
            rest + 1
        } else {
            rest
        }
    }
}

/// A structure for triggering events on connected clients, bound to one
/// namespace and one delivery scope. By default events go to all clients;
/// narrowing the scope always builds a new trigger.
#[derive(Debug, Clone)]
pub struct EventTrigger {
    path_prefix: String,
    scope: Windows,
}

impl EventTrigger {
    /// The namespace prefix this trigger qualifies its events with.
    pub closed spec fn spec_prefix(self) -> Seq<char> {
        self.path_prefix@
    }

    /// The scope this trigger delivers to.
    pub closed spec fn spec_scope(self) -> Windows {
        self.scope
    }

    /// A trigger for the given namespace with the default scope: all
    /// connected clients.
    pub fn new(path_prefix: String) -> (r: Self)
        ensures
            r.spec_prefix() == path_prefix@,
            r.spec_scope() is All,
    {
        EventTrigger { path_prefix, scope: Windows::default() }
    }

    /// A trigger for the given namespace with an explicit scope.
    pub fn new_scoped(path_prefix: String, scope: Windows) -> (r: Self)
        ensures
            r.spec_prefix() == path_prefix@,
            r.spec_scope() == scope,
    {
        EventTrigger { path_prefix, scope }
    }

    /// A trigger sharing an existing trigger's namespace but delivering
    /// to a different scope.
    pub fn new_scoped_from_trigger(trigger: Self, scope: Windows) -> (r: Self)
        ensures
            r.spec_prefix() == trigger.spec_prefix(),
            r.spec_scope() == scope,
    {
        EventTrigger { path_prefix: trigger.path_prefix, scope }
    }

    /// A new trigger with the same namespace and the given scope; the
    /// receiver is not mutated, so other holders keep their scope.
    pub fn send_to(&self, scope: Windows) -> (r: Self)
        ensures
            r.spec_prefix() == self.spec_prefix(),
            r.spec_scope() == scope,
    {
        EventTrigger { path_prefix: self.path_prefix.clone(), scope }
    }

    /// Plans the emission of one event: builds the qualified event name
    /// (`prefix.method`, or just `method` for the root namespace), wraps
    /// it with the payload into an envelope, and returns the deliveries
    /// the transport must perform for this trigger's scope, in order.
    #[verifier::loop_isolation(false)]
    pub fn call(&self, proc_name: &str, payload: Vec<u8>) -> (r: Vec<Delivery>)
        ensures
            call_post(self.spec_prefix(), self.spec_scope(), proc_name@, payload@, r@),
    {
        let name = build_qualified_name(self.path_prefix.as_str(), proc_name);
        match &self.scope {
            Windows::All => {
                let env = EventEnvelope { event_name: name, payload };
                vec![Delivery::Broadcast(env)]
            },
            Windows::One(label) => {
                let env = EventEnvelope { event_name: name, payload };
                vec![Delivery::ToWindow(label.clone(), env)]
            },
            Windows::N(labels) => {
                let mut plan: Vec<Delivery> = Vec::new();
                let mut i: usize = 0;
                while i < labels.len()
                    invariant
                        i <= labels.len(),
                        plan@.len() == i,
                        forall|k: int|
                            0 <= k < i ==> (#[trigger] plan@[k]).target() == Some(
                                labels.deep_view()[k],
                            ) && plan@[k].envelope_model() == (
                                qualified_name(self.spec_prefix(), proc_name@),
                                payload@,
                            ),
                    decreases labels.len() - i,
                {
                    let env = EventEnvelope {
                        event_name: name.clone(),
                        payload: clone_bytes(&payload),
                    };
                    plan.push(Delivery::ToWindow(labels[i].clone(), env));
                    i = i + 1;
                }
                plan
            },
        }
    }
}

/// A fresh copy of a byte payload, equal to the original.
fn clone_bytes(v: &Vec<u8>) -> (r: Vec<u8>)
    ensures
        r@ == v@,
{
    let r = v.clone();
    proof {
        assert(r@ =~= v@);
    }
    r
}

/// Emitting to a single connected client delivers the envelope to that
/// client exactly once and to no other client, connected or not.
pub proof fn lemma_scope_one_exclusive(
    plan: Seq<Delivery>,
    id: Seq<char>,
    connected: Set<Seq<char>>,
    other: Seq<char>,
)
    requires
        plan.len() == 1,
        plan[0].target() == Some(id),
        connected.contains(id),
        other != id,
    ensures
        delivery_count(plan, id, connected) == 1,
        delivery_count(plan, other, connected) == 0,
{
    assert(plan.drop_last() =~= Seq::<Delivery>::empty());
    assert(delivery_count(Seq::<Delivery>::empty(), id, connected) == 0);
    assert(delivery_count(Seq::<Delivery>::empty(), other, connected) == 0);
    assert(plan.last() == plan[0]);
    assert(delivery_count(plan, id, connected) == 1);
    assert(plan.last().target() != Some(other));
    assert(delivery_count(plan, other, connected) == 0);
}

/// No targeted-only plan delivers anything to a client that none of its
/// deliveries target.
proof fn lemma_count_zero_when_untargeted(
    plan: Seq<Delivery>,
    id: Seq<char>,
    connected: Set<Seq<char>>,
)
    requires
        forall|i: int| 0 <= i < plan.len() ==> (#[trigger] plan[i]).target() is Some,
        forall|i: int| 0 <= i < plan.len() ==> (#[trigger] plan[i]).target() != Some(id),
    ensures
        delivery_count(plan, id, connected) == 0,
    decreases plan.len(),
{
    if plan.len() > 0 {
        lemma_count_zero_when_untargeted(plan.drop_last(), id, connected);
    }
}

/// P-style restatement over the public contract of [`EventTrigger::call`]:
/// a plan emitted with scope `One(label)` and a connected `label` delivers
/// to that client exactly once, and to no other client.
pub proof fn lemma_call_one_exclusive(
    prefix: Seq<char>,
    label: String,
    method: Seq<char>,
    payload: Seq<u8>,
    plan: Seq<Delivery>,
    connected: Set<Seq<char>>,
    other: Seq<char>,
)
    requires
        call_post(prefix, Windows::One(label), method, payload, plan),
        connected.contains(label@),
        other != label@,
    ensures
        delivery_count(plan, label@, connected) == 1,
        delivery_count(plan, other, connected) == 0,
{
    lemma_scope_one_exclusive(plan, label@, connected, other);
}

/// P-style restatement over the public contract of [`EventTrigger::call`]:
/// a plan emitted with scope `N(labels)`, for distinct labels, delivers to
/// each listed, connected client exactly once.
pub proof fn lemma_call_many_once_each(
    prefix: Seq<char>,
    labels: Vec<String>,
    method: Seq<char>,
    payload: Seq<u8>,
    plan: Seq<Delivery>,
    connected: Set<Seq<char>>,
    id: Seq<char>,
)
    requires
        call_post(prefix, Windows::N(labels), method, payload, plan),
        forall|i: int, j: int|
            0 <= i < j < labels.deep_view().len() ==> labels.deep_view()[i]
                != labels.deep_view()[j],
        labels.deep_view().contains(id),
        connected.contains(id),
    ensures
        delivery_count(plan, id, connected) == 1,
{
    assert(labels.deep_view().len() == labels@.len());
    lemma_scope_many_once_each(plan, labels.deep_view(), connected, id);
}

/// Emitting to an explicit list of distinct client labels delivers the
/// envelope to each listed, connected client exactly once.
pub proof fn lemma_scope_many_once_each(
    plan: Seq<Delivery>,
    labels: Seq<Seq<char>>,
    connected: Set<Seq<char>>,
    id: Seq<char>,
)
    requires
        plan.len() == labels.len(),
        forall|i: int| 0 <= i < plan.len() ==> (#[trigger] plan[i]).target() == Some(labels[i]),
        forall|i: int, j: int| 0 <= i < j < labels.len() ==> labels[i] != labels[j],
        labels.contains(id),
        connected.contains(id),
    ensures
        delivery_count(plan, id, connected) == 1,
    decreases plan.len(),
{
    let n = plan.len() as int;
    assert(n >= 1);
    if labels.last() == id {
        assert forall|i: int| 0 <= i < n - 1 implies (#[trigger] plan.drop_last()[i]).target()
            != Some(id) by {
            assert(plan.drop_last()[i] == plan[i]);
            assert(labels[i] != labels[n - 1]);
        }
        assert forall|i: int| 0 <= i < n - 1 implies (#[trigger] plan.drop_last()[i]).target()
            is Some by {
            assert(plan.drop_last()[i] == plan[i]);
        }
        lemma_count_zero_when_untargeted(plan.drop_last(), id, connected);
    } else {
        let w = choose|w: int| 0 <= w < labels.len() && labels[w] == id;
        assert(w < n - 1);
        assert(labels.take(n - 1)[w] == id);
        assert(labels.take(n - 1).contains(id));
        assert forall|i: int| 0 <= i < n - 1 implies (#[trigger] plan.take(n - 1)[i]).target()
            == Some(labels.take(n - 1)[i]) by {
            assert(plan.take(n - 1)[i] == plan[i]);
            assert(labels.take(n - 1)[i] == labels[i]);
        }
        lemma_scope_many_once_each(plan.take(n - 1), labels.take(n - 1), connected, id);
        assert(plan.drop_last() =~= plan.take(n - 1));
        assert(plan.last().target() == Some(labels[n - 1]));
    }
}

} // verus!
