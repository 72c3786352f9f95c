//! The top-level demultiplexer.
//!
//! A [`Router`] merges independently registered namespaces — each a
//! [`Namespace`]: path prefix, display name, dispatch table and handler
//! instance — into one entry point. Merging fails, before any dispatch can
//! occur, when a prefix is already taken. Once built, the router is
//! converted into an [`IpcHandler`], after which the namespace map is
//! read-only: dispatching only ever appends to exactly one namespace's
//! queue and touches no other namespace.

use vstd::prelude::*;
use crate::command::{
    has_marker, rest_of, command_prefix, not_found_msg, parse_command, format_not_found, str_eq,
    rpc_marker, qualified_name, lemma_command_roundtrip,
};
use crate::invoke::{Invocation, Completion};
use crate::registry::{
    DispatchTable, RegistryError, Procedures, ProceduresAttrs, build_dispatch_table, build_fault,
    table_model, TableFault,
};
use crate::worker::{
    NamespaceWorker, TauRpcHandler, QueuePolicy, EnqueueEffect, enqueue_post, run_post,
    DEFAULT_QUEUE_CAPACITY,
};

verus! {

/// One handler group as registered with a router: its routing prefix
/// (empty for the root namespace), its display name, its dispatch table,
/// the file its bindings are exported to (if overridden), and the handler
/// instance itself.
pub struct Namespace<H> {
    pub path_prefix: String,
    pub display_name: String,
    pub table: DispatchTable,
    pub export_path: Option<String>,
    pub handler: H,
}

impl<H: TauRpcHandler> Namespace<H> {
    /// Well-formedness: the dispatch table has unique command names.
    pub open spec fn wf(self) -> bool {
        self.table.wf()
    }

    /// Builds a namespace from one handler group's declared interface:
    /// the dispatch table is built from the registrations, the prefix and
    /// export override come from the group's attributes. Fails exactly
    /// when the table cannot be built.
    pub fn from_procedures(procedures: Procedures, attrs: ProceduresAttrs, handler: H) -> (r:
        Result<Namespace<H>, RegistryError>)
        ensures
            match r {
                Ok(ns) => build_fault(procedures.methods@) is None && ns.wf()
                    && ns.table.models() == table_model(procedures.methods@)
                    && ns.path_prefix == attrs.path && ns.display_name == procedures.ident
                    && ns.export_path == attrs.export_to && ns.handler == handler,
                Err(e) => match e {
                    RegistryError::ReservedMethodName(n) => build_fault(procedures.methods@)
                        == Some(TableFault::Reserved(n@)),
                    RegistryError::DuplicateMethodName(n) => build_fault(procedures.methods@)
                        == Some(TableFault::Duplicate(n@)),
                },
            },
    {
        let Procedures { ident, methods } = procedures;
        match build_dispatch_table(methods) {
            Ok(table) => Ok(
                Namespace {
                    path_prefix: attrs.path,
                    display_name: ident,
                    table,
                    export_path: attrs.export_to,
                    handler,
                },
            ),
            Err(e) => Err(e),
        }
    }
}

/// A registered namespace inside a router: its prefix, its display name,
/// and the worker that owns its handler and queue.
pub struct RouterEntry<H> {
    pub path_prefix: String,
    pub display_name: String,
    pub worker: NamespaceWorker<H>,
}

/// Merging failed: the new namespace's prefix is already registered.
/// This is a programming error surfaced at build time, before any
/// dispatch.
#[derive(Debug, PartialEq)]
pub enum RouterError {
    DuplicatePrefix(String),
}

/// What the router did with one raw command.
#[derive(Debug)]
pub enum Dispatched {
    /// The command does not start with the routing marker; it is handed
    /// back untouched so another handling layer can take it.
    NotHandled(Invocation),
    /// The command belongs to this protocol but its namespace prefix is
    /// unregistered: the sink was rejected, exactly once, quoting the full
    /// original command.
    Rejected(Completion),
    /// The invocation was delivered to exactly the namespace its prefix
    /// names; the effect reports what that namespace's queue did.
    Delivered(EnqueueEffect),
}

impl Dispatched {
    /// The boolean the transport needs: whether the command was recognized
    /// as belonging to this protocol (routable or explicitly rejected).
    pub fn handled(&self) -> (r: bool)
        ensures
            r == !(self is NotHandled),
    {
        match self {
            Dispatched::NotHandled(_) => false,
            Dispatched::Rejected(_) => true,
            Dispatched::Delivered(_) => true,
        }
    }
}

/// The top-level demultiplexer: the namespace map (prefixes unique), the
/// queue policy its workers are spawned with, and the export descriptor.
pub struct Router<H> {
    namespaces: Vec<RouterEntry<H>>,
    export_path: Option<String>,
    policy: QueuePolicy,
    capacity: usize,
}

impl<H: TauRpcHandler> Router<H> {
    /// The registered namespaces, in merge order.
    pub closed spec fn spec_namespaces(self) -> Seq<RouterEntry<H>> {
        self.namespaces@
    }

    /// The export descriptor: the bindings path of the last merged
    /// namespace that carried one.
    pub closed spec fn spec_export_path(self) -> Option<String> {
        self.export_path
    }

    /// The queue policy new workers are spawned with.
    pub closed spec fn spec_policy(self) -> QueuePolicy {
        self.policy
    }

    /// The queue bound new workers are spawned with.
    pub closed spec fn spec_capacity(self) -> usize {
        self.capacity
    }

    /// The registered prefixes, in merge order.
    pub open spec fn prefixes(self) -> Seq<Seq<char>> {
        self.spec_namespaces().map_values(|e: RouterEntry<H>| e.path_prefix@)
    }

    /// Whether some namespace is registered under prefix `p`.
    pub open spec fn has_prefix(self, p: Seq<char>) -> bool {
        exists|i: int| 0 <= i < self.prefixes().len() && self.prefixes()[i] == p
    }

    /// The position of the namespace registered under prefix `p`.
    pub open spec fn index_of_prefix(self, p: Seq<char>) -> int {
        choose|i: int| 0 <= i < self.prefixes().len() && self.prefixes()[i] == p
    }

    /// Well-formedness: prefixes are unique and every worker is valid.
    pub open spec fn wf(self) -> bool {
        &&& forall|i: int, j: int|
            0 <= i < j < self.prefixes().len() ==> self.prefixes()[i] != self.prefixes()[j]
        &&& forall|i: int|
            0 <= i < self.spec_namespaces().len() ==> (#[trigger] self.spec_namespaces()[i]).worker.wf()
        &&& self.spec_capacity() >= 1
    }

    /// The policy, bound and export descriptor are unchanged.
    pub open spec fn same_config(self, other: Self) -> bool {
        &&& self.spec_policy() == other.spec_policy()
        &&& self.spec_capacity() == other.spec_capacity()
        &&& self.spec_export_path() == other.spec_export_path()
    }

    /// An empty router with the bounded lossy policy and the default
    /// queue capacity: lowest latency, and a worker lagging far behind a
    /// burst sheds its oldest pending call rather than stalling dispatch.
    pub fn new() -> (r: Self)
        ensures
            r.wf(),
            r.spec_namespaces().len() == 0,
            r.spec_export_path() is None,
            r.spec_policy() is Lossy,
            r.spec_capacity() == DEFAULT_QUEUE_CAPACITY as int,
    {
        Router {
            namespaces: Vec::new(),
            export_path: None,
            policy: QueuePolicy::Lossy,
            capacity: DEFAULT_QUEUE_CAPACITY,
        }
    }

    /// An empty router whose workers will use the given backpressure
    /// policy and queue bound.
    pub fn with_policy(policy: QueuePolicy, capacity: usize) -> (r: Self)
        requires
            capacity >= 1,
        ensures
            r.wf(),
            r.spec_namespaces().len() == 0,
            r.spec_export_path() is None,
            r.spec_policy() == policy,
            r.spec_capacity() == capacity,
    {
        Router { namespaces: Vec::new(), export_path: None, policy, capacity }
    }

    /// Finds the namespace registered under `prefix`.
    fn find_namespace(&self, prefix: &str) -> (r: Option<usize>)
        requires
            self.wf(),
        ensures
            match r {
                Some(i) => self.has_prefix(prefix@) && i < self.spec_namespaces().len()
                    && self.prefixes()[i as int] == prefix@ && i as int == self.index_of_prefix(
                    prefix@,
                ),
                None => !self.has_prefix(prefix@),
            },
    {
        let mut i: usize = 0;
        while i < self.namespaces.len()
            invariant
                self.wf(),
                i <= self.namespaces.len(),
                forall|j: int| 0 <= j < i ==> self.prefixes()[j] != prefix@,
            decreases self.namespaces.len() - i,
        {
            if str_eq(self.namespaces[i].path_prefix.as_str(), prefix) {
                proof {
                    assert(self.prefixes()[i as int] == prefix@);
                    assert(self.has_prefix(prefix@));
                    let k = self.index_of_prefix(prefix@);
                    assert(self.prefixes()[k] == prefix@);
                    if k < i as int {
                        assert(self.prefixes()[k] != self.prefixes()[i as int]);
                    } else if k > i as int {
                        assert(self.prefixes()[i as int] != self.prefixes()[k]);
                    }
                    assert(k == i as int);
                }
                return Some(i);
            }
            i = i + 1;
        }
        None
    }

    /// Adds a namespace to the router. Fails, leaving the router exactly
    /// as it was and before any dispatch can occur, when the namespace's
    /// prefix is already registered; succeeds on every fresh prefix. On
    /// success the new namespace's worker starts with an empty queue, and
    /// a namespace-supplied export path overrides the router's.
    pub fn merge(&mut self, ns: Namespace<H>) -> (r: Result<(), RouterError>)
        requires
            old(self).wf(),
            ns.wf(),
        ensures
            final(self).wf(),
            match r {
                Ok(()) => !old(self).has_prefix(ns.path_prefix@) && final(self).spec_namespaces().len() == old(self).spec_namespaces().len() + 1 && final(self).spec_namespaces().drop_last() == old(self).spec_namespaces() && merged_entry(
                    final(self).spec_namespaces().last(),
                    ns,
                    old(self).spec_policy(),
                    old(self).spec_capacity(),
                ) && final(self).spec_policy() == old(self).spec_policy() && final(self).spec_capacity() == old(self).spec_capacity() && final(self).spec_export_path()
                    == (if ns.export_path is Some {
                    ns.export_path
                } else {
                    old(self).spec_export_path()
                }),
                Err(e) => e == RouterError::DuplicatePrefix(ns.path_prefix) && old(
                    self,
                ).has_prefix(ns.path_prefix@) && *final(self) == *old(self),
            },
    {
        match self.find_namespace(ns.path_prefix.as_str()) {
            Some(_) => Err(RouterError::DuplicatePrefix(ns.path_prefix)),
            None => {
                let Namespace { path_prefix, display_name, table, export_path, handler } = ns;
                match export_path {
                    Some(p) => {
                        self.export_path = Some(p);
                    },
                    None => {},
                }
                let worker = NamespaceWorker::spawn(handler, table, self.policy, self.capacity);
                self.namespaces.push(RouterEntry { path_prefix, display_name, worker });
                proof {
                    assert(self.namespaces@.drop_last() =~= old(self).namespaces@);
                    assert forall|i: int, j: int|
                        0 <= i < j < self.prefixes().len() implies self.prefixes()[i]
                        != self.prefixes()[j] by {
                        if j < old(self).prefixes().len() {
                            assert(self.prefixes()[i] == old(self).prefixes()[i]);
                            assert(self.prefixes()[j] == old(self).prefixes()[j]);
                        } else {
                            assert(self.prefixes()[i] == old(self).prefixes()[i]);
                            assert(self.prefixes()[j] == ns.path_prefix@);
                        }
                    }
                }
                Ok(())
            },
        }
    }

    /// Routes one raw invocation. A command without the routing marker is
    /// handed back ("not handled") with no namespace touched; a marked
    /// command with an unregistered prefix rejects the sink exactly once,
    /// quoting the full original command, with no namespace touched; a
    /// marked command with a registered prefix is delivered to exactly
    /// that namespace's queue, and to no other.
    pub fn on_command(&mut self, inv: Invocation) -> (r: Dispatched)
        requires
            old(self).wf(),
        ensures
            final(self).wf(),
            final(self).same_config(*old(self)),
            dispatch_post(*old(self), *final(self), inv, r),
    {
        let parts_opt = parse_command(inv.command.as_str());
        match parts_opt {
            None => Dispatched::NotHandled(inv),
            Some(parts) => {
                match self.find_namespace(parts.prefix.as_str()) {
                    None => {
                        let msg = format_not_found(inv.command.as_str());
                        let Invocation { command: _, payload: _, sink } = inv;
                        Dispatched::Rejected(sink.reject(msg))
                    },
                    Some(i) => {
                        let ghost pre = *self;
                        let mut entry = self.namespaces.remove(i);
                        let ghost w0 = entry.worker;
                        let eff = entry.worker.enqueue(inv);
                        self.namespaces.insert(i, entry);
                        proof {
                            assert(w0 == pre.spec_namespaces()[i as int].worker);
                            assert(self.namespaces@ =~= pre.spec_namespaces().update(
                                i as int,
                                entry,
                            ));
                            assert(self.prefixes() =~= pre.prefixes());
                            assert(enqueue_post(
                                pre.spec_namespaces()[i as int].worker,
                                self.spec_namespaces()[i as int].worker,
                                inv,
                                eff,
                            ));
                        }
                        Dispatched::Delivered(eff)
                    },
                }
            },
        }
    }

    /// Processes every invocation pending in the namespace registered
    /// under `prefix`, oldest first, touching no other namespace; returns
    /// the completions in arrival order, or `None` for an unregistered
    /// prefix.
    pub fn run_pending(&mut self, prefix: &str) -> (r: Option<Vec<Completion>>)
        requires
            old(self).wf(),
        ensures
            final(self).wf(),
            final(self).same_config(*old(self)),
            match r {
                None => !old(self).has_prefix(prefix@) && *final(self) == *old(self),
                Some(cs) => old(self).has_prefix(prefix@) && drained_post(
                    *old(self),
                    *final(self),
                    old(self).index_of_prefix(prefix@),
                    cs@,
                ),
            },
    {
        match self.find_namespace(prefix) {
            None => None,
            Some(i) => {
                let ghost pre = *self;
                let mut entry = self.namespaces.remove(i);
                let cs = entry.worker.run_pending();
                self.namespaces.insert(i, entry);
                proof {
                    assert(self.namespaces@ =~= pre.spec_namespaces().update(i as int, entry));
                    assert(self.prefixes() =~= pre.prefixes());
                    assert(run_post(
                        pre.spec_namespaces()[i as int].worker,
                        self.spec_namespaces()[i as int].worker,
                        cs@,
                    ));
                }
                Some(cs)
            },
        }
    }

    /// How many namespaces are registered.
    pub fn len(&self) -> (r: usize)
        ensures
            r == self.spec_namespaces().len(),
    {
        self.namespaces.len()
    }

    /// The registered namespace at position `i`, in merge order.
    pub fn entry(&self, i: usize) -> (r: &RouterEntry<H>)
        requires
            i < self.spec_namespaces().len(),
        ensures
            r == self.spec_namespaces()[i as int],
    {
        &self.namespaces[i]
    }

    /// The export descriptor the merged namespaces chose, if any.
    pub fn export_path(&self) -> (r: &Option<String>)
        ensures
            r == self.spec_export_path(),
    {
        &self.export_path
    }

    /// Converts the built router into its immutable dispatch facade. From
    /// here on the namespace map is read-only and freely shared; only the
    /// per-namespace queues still change.
    pub fn into_handler(self) -> (r: IpcHandler<H>)
        ensures
            r.spec_router() == self,
    {
        IpcHandler { router: self }
    }
}

/// The entry a successful merge appends: the namespace's own prefix and
/// display name, and a fresh worker owning its handler and table, with an
/// empty queue, under the router's policy.
pub open spec fn merged_entry<H: TauRpcHandler>(
    e: RouterEntry<H>,
    ns: Namespace<H>,
    policy: QueuePolicy,
    capacity: usize,
) -> bool {
    &&& e.path_prefix == ns.path_prefix
    &&& e.display_name == ns.display_name
    &&& e.worker.spec_table() == ns.table
    &&& e.worker.spec_handler() == ns.handler
    &&& e.worker.spec_queue().len() == 0
    &&& e.worker.spec_policy() == policy
    &&& e.worker.spec_capacity() == capacity
}

/// What delivering `inv` did to the router: exactly the namespace at
/// position `i = pre.index_of_prefix(prefix-of-inv)` received it, every
/// other namespace is untouched, and that namespace's queue changed as
/// its policy dictates.
pub open spec fn delivered_post<H: TauRpcHandler>(
    pre: Router<H>,
    post: Router<H>,
    inv: Invocation,
    eff: EnqueueEffect,
) -> bool {
    let i = pre.index_of_prefix(command_prefix(rest_of(inv.command@)));
    &&& post.spec_namespaces().len() == pre.spec_namespaces().len()
    &&& forall|j: int|
        0 <= j < pre.spec_namespaces().len() && j != i ==> post.spec_namespaces()[j]
            == pre.spec_namespaces()[j]
    &&& post.spec_namespaces()[i].path_prefix == pre.spec_namespaces()[i].path_prefix
    &&& post.spec_namespaces()[i].display_name == pre.spec_namespaces()[i].display_name
    &&& post.spec_namespaces()[i].worker.same_shape(pre.spec_namespaces()[i].worker)
    &&& enqueue_post(
        pre.spec_namespaces()[i].worker,
        post.spec_namespaces()[i].worker,
        inv,
        eff,
    )
}

/// What draining the namespace at position `i` did to the router: its
/// queue was processed to completion, in arrival order, and every other
/// namespace is untouched.
pub open spec fn drained_post<H: TauRpcHandler>(
    pre: Router<H>,
    post: Router<H>,
    i: int,
    cs: Seq<Completion>,
) -> bool {
    &&& post.spec_namespaces().len() == pre.spec_namespaces().len()
    &&& forall|j: int|
        0 <= j < pre.spec_namespaces().len() && j != i ==> post.spec_namespaces()[j]
            == pre.spec_namespaces()[j]
    &&& post.spec_namespaces()[i].path_prefix == pre.spec_namespaces()[i].path_prefix
    &&& post.spec_namespaces()[i].display_name == pre.spec_namespaces()[i].display_name
    &&& post.spec_namespaces()[i].worker.same_shape(pre.spec_namespaces()[i].worker)
    &&& run_post(pre.spec_namespaces()[i].worker, post.spec_namespaces()[i].worker, cs)
}

/// Everything the router promises about one dispatch, as a relation
/// between the router before and after the call.
pub open spec fn dispatch_post<H: TauRpcHandler>(
    pre: Router<H>,
    post: Router<H>,
    inv: Invocation,
    r: Dispatched,
) -> bool {
    match r {
        Dispatched::NotHandled(back) => !has_marker(inv.command@) && back == inv && post == pre,
        Dispatched::Rejected(c) => has_marker(inv.command@) && !pre.has_prefix(
            command_prefix(rest_of(inv.command@)),
        ) && c.sink_id == inv.sink.id() && c.outcome.is_rejection_with(not_found_msg(inv.command@))
            && post == pre,
        Dispatched::Delivered(eff) => has_marker(inv.command@) && pre.has_prefix(
            command_prefix(rest_of(inv.command@)),
        ) && delivered_post(pre, post, inv, eff),
    }
}

/// A well-formed command built from a registered prefix and a
/// separator-free method name is always delivered, and it reaches exactly
/// the namespace registered under that prefix: every other namespace is
/// left untouched.
pub proof fn lemma_wellformed_command_routes_by_prefix<H: TauRpcHandler>(
    pre: Router<H>,
    post: Router<H>,
    inv: Invocation,
    r: Dispatched,
    prefix: Seq<char>,
    method: Seq<char>,
)
    requires
        dispatch_post(pre, post, inv, r),
        inv.command@ == rpc_marker() + qualified_name(prefix, method),
        !method.contains('.'),
        pre.has_prefix(prefix),
    ensures
        r is Delivered,
        post.spec_namespaces().len() == pre.spec_namespaces().len(),
        forall|j: int|
            0 <= j < pre.spec_namespaces().len() && j != pre.index_of_prefix(prefix)
                ==> post.spec_namespaces()[j] == pre.spec_namespaces()[j],
        enqueue_post(
            pre.spec_namespaces()[pre.index_of_prefix(prefix)].worker,
            post.spec_namespaces()[pre.index_of_prefix(prefix)].worker,
            inv,
            r->Delivered_0,
        ),
{
    lemma_command_roundtrip(prefix, method);
    assert(has_marker(inv.command@));
    assert(command_prefix(rest_of(inv.command@)) == prefix);
    match r {
        Dispatched::NotHandled(_) => {
            assert(false);
        },
        Dispatched::Rejected(_) => {
            assert(false);
        },
        Dispatched::Delivered(_) => {
        },
    }
}

/// The immutable dispatch facade a built router converts into. The
/// namespace map can no longer change; dispatching and draining only
/// touch the per-namespace queues.
pub struct IpcHandler<H> {
    router: Router<H>,
}

impl<H: TauRpcHandler> IpcHandler<H> {
    /// The router this facade wraps.
    pub closed spec fn spec_router(self) -> Router<H> {
        self.router
    }

    /// Well-formedness of the wrapped router.
    pub open spec fn wf(self) -> bool {
        self.spec_router().wf()
    }

    /// Routes one raw invocation; see [`Router::on_command`].
    pub fn handle(&mut self, inv: Invocation) -> (r: Dispatched)
        requires
            old(self).wf(),
        ensures
            final(self).wf(),
            final(self).spec_router().same_config(old(self).spec_router()),
            dispatch_post(old(self).spec_router(), final(self).spec_router(), inv, r),
    {
        self.router.on_command(inv)
    }

    /// Drains one namespace's queue; see [`Router::run_pending`].
    pub fn run_pending(&mut self, prefix: &str) -> (r: Option<Vec<Completion>>)
        requires
            old(self).wf(),
        ensures
            final(self).wf(),
            final(self).spec_router().same_config(old(self).spec_router()),
            match r {
                None => !old(self).spec_router().has_prefix(prefix@) && *final(self) == *old(
                    self,
                ),
                Some(cs) => old(self).spec_router().has_prefix(prefix@) && drained_post(
                    old(self).spec_router(),
                    final(self).spec_router(),
                    old(self).spec_router().index_of_prefix(prefix@),
                    cs@,
                ),
            },
    {
        self.router.run_pending(prefix)
    }

    /// The wrapped router, for read-only inspection (export bookkeeping).
    pub fn router(&self) -> (r: &Router<H>)
        ensures
            r == self.spec_router(),
    {
        &self.router
    }

    /// The export descriptor the merged namespaces chose, if any.
    pub fn export_path(&self) -> (r: &Option<String>)
        ensures
            r == self.spec_router().spec_export_path(),
    {
        self.router.export_path()
    }
}

/// Creates the dispatch facade for a single handler group, the
/// convenience path when no nested routes are needed: a fresh router, one
/// merge (which cannot collide), and the conversion to the immutable
/// facade.
pub fn create_ipc_handler<H: TauRpcHandler>(ns: Namespace<H>) -> (r: IpcHandler<H>)
    requires
        ns.wf(),
    ensures
        r.wf(),
        r.spec_router().spec_namespaces().len() == 1,
        merged_entry(
            r.spec_router().spec_namespaces()[0],
            ns,
            QueuePolicy::Lossy,
            DEFAULT_QUEUE_CAPACITY as usize,
        ),
        r.spec_router().spec_export_path() == (if ns.export_path is Some {
            ns.export_path
        } else {
            Option::<String>::None
        }),
{
    let mut router = Router::<H>::new();
    let res = router.merge(ns);
    match res {
        Ok(()) => router.into_handler(),
        Err(_) => {
            proof {
                assert(false);
            }
            vstd::pervasive::unreached()
        },
    }
}

} // verus!
