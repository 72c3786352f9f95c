//! Per-namespace workers.
//!
//! A [`NamespaceWorker`] owns one handler instance, that namespace's
//! dispatch table, and a FIFO queue of invocations. Decoupling arrival
//! from execution gives the handler single-threaded, serialized access:
//! within one namespace, invocations are processed in the order the queue
//! delivers them. The queue's backpressure behaviour is an explicit
//! [`QueuePolicy`]; whichever policy is chosen, an invocation that the
//! queue discards still resolves its response sink with a distinguishable
//! overload rejection, never silently.

use vstd::prelude::*;
use crate::command::{
    has_marker, rest_of, command_method, method_not_found_msg, overloaded_msg, parse_command,
    format_method_not_found, format_overloaded,
};
use crate::invoke::{Invocation, Completion, Outcome};
use crate::registry::DispatchTable;

verus! {

/// The queue capacity used when a namespace is merged with the default
/// bounded policy.
pub const DEFAULT_QUEUE_CAPACITY: usize = 32;

/// What a worker's bounded queue does when it is full.
#[derive(Debug, Clone, Copy, PartialEq, Eq, Structural)]
pub enum QueuePolicy {
    /// Never drops and never refuses; the queue may grow without bound.
    Unbounded,
    /// Never drops; a full queue refuses the new invocation and hands it
    /// back, stalling the dispatch path until the caller retries.
    Blocking,
    /// Never refuses; a full queue discards its oldest pending invocation,
    /// rejecting that invocation's sink with an overload diagnostic.
    Lossy,
}

/// One namespace's handler implementation. Implementors receive the method
/// name (the command with marker and namespace prefix already stripped)
/// and the opaque argument payload, and return the serialized response;
/// application-level failure is encoded in the payload shape, not as a
/// protocol-level fault.
pub trait TauRpcHandler {
    /// Handles a single incoming request for this namespace.
    fn handle_incoming_request(&mut self, method: &str, payload: &Vec<u8>) -> Vec<u8>;
}

/// What enqueueing an invocation did, under the worker's policy.
#[derive(Debug)]
pub enum EnqueueEffect {
    /// The invocation was queued.
    Accepted,
    /// Blocking policy, full queue: the invocation is handed back intact
    /// for the caller to retry; nothing was lost.
    Refused(Invocation),
    /// Lossy policy, full queue: the invocation was queued, and the oldest
    /// pending invocation was discarded — with its sink rejected, never
    /// leaked.
    AcceptedDroppingOldest(Completion),
}

/// The outcome a worker owes the invocation whose full command string is
/// `cmd`, given its dispatch table: a resolved response when the method
/// name is an invokable command of the table, and a "not found" rejection
/// quoting the full original command otherwise.
pub open spec fn completion_matches(table: DispatchTable, cmd: Seq<char>, c: Completion) -> bool {
    if has_marker(cmd) && table.has_command(command_method(rest_of(cmd))) {
        c.outcome is Resolved
    } else {
        c.outcome.is_rejection_with(method_not_found_msg(cmd))
    }
}

/// What [`NamespaceWorker::enqueue`] guarantees: the relation between the
/// worker before and after delivering `inv` into its queue, and the
/// returned effect.
pub open spec fn enqueue_post<H: TauRpcHandler>(
    pre: NamespaceWorker<H>,
    post: NamespaceWorker<H>,
    inv: Invocation,
    r: EnqueueEffect,
) -> bool {
    match r {
        EnqueueEffect::Accepted => (pre.spec_policy() is Unbounded || pre.spec_queue().len()
            < pre.spec_capacity()) && post.spec_queue() == pre.spec_queue().push(inv),
        EnqueueEffect::Refused(back) => pre.spec_policy() is Blocking && pre.spec_queue().len()
            >= pre.spec_capacity() && back == inv && post.spec_queue() == pre.spec_queue(),
        EnqueueEffect::AcceptedDroppingOldest(c) => pre.spec_policy() is Lossy
            && pre.spec_queue().len() >= pre.spec_capacity() && post.spec_queue()
            == pre.spec_queue().drop_first().push(inv) && c.sink_id
            == pre.spec_queue()[0].sink.id() && c.outcome.is_rejection_with(
            overloaded_msg(pre.spec_queue()[0].command@),
        ),
    }
}

/// What [`NamespaceWorker::run_pending`] guarantees: one completion per
/// pending invocation, in arrival order, each as its dispatch table owes
/// it, and an emptied queue.
pub open spec fn run_post<H: TauRpcHandler>(
    pre: NamespaceWorker<H>,
    post: NamespaceWorker<H>,
    out: Seq<Completion>,
) -> bool {
    &&& post.spec_queue().len() == 0
    &&& out.len() == pre.spec_queue().len()
    &&& forall|i: int|
        0 <= i < out.len() ==> out[i].sink_id == pre.spec_queue()[i].sink.id()
            && completion_matches(pre.spec_table(), pre.spec_queue()[i].command@, out[i])
}

/// Sequential invocations delivered to the same namespace, in order and
/// both accepted by its queue, are resolved in arrival order: when the
/// queue is then processed, the first invocation's completion comes
/// strictly before the second's.
pub proof fn lemma_fifo_order<H: TauRpcHandler>(
    w0: NamespaceWorker<H>,
    w1: NamespaceWorker<H>,
    w2: NamespaceWorker<H>,
    w3: NamespaceWorker<H>,
    c1: Invocation,
    c2: Invocation,
    out: Seq<Completion>,
)
    requires
        enqueue_post(w0, w1, c1, EnqueueEffect::Accepted),
        enqueue_post(w1, w2, c2, EnqueueEffect::Accepted),
        run_post(w2, w3, out),
    ensures
        out.len() == w0.spec_queue().len() + 2,
        out[w0.spec_queue().len() as int].sink_id == c1.sink.id(),
        out[w0.spec_queue().len() as int + 1].sink_id == c2.sink.id(),
{
    let n = w0.spec_queue().len() as int;
    assert(w2.spec_queue() == w0.spec_queue().push(c1).push(c2));
    assert(w2.spec_queue()[n] == c1);
    assert(w2.spec_queue()[n + 1] == c2);
}

/// The asynchronous task of one namespace: one handler instance, the
/// namespace's dispatch table, and the FIFO queue of pending invocations.
pub struct NamespaceWorker<H> {
    handler: H,
    table: DispatchTable,
    queue: Vec<Invocation>,
    policy: QueuePolicy,
    capacity: usize,
}

impl<H: TauRpcHandler> NamespaceWorker<H> {
    /// The handler instance this worker owns.
    pub closed spec fn spec_handler(self) -> H {
        self.handler
    }

    /// The namespace's dispatch table.
    pub closed spec fn spec_table(self) -> DispatchTable {
        self.table
    }

    /// The pending invocations, oldest first.
    pub closed spec fn spec_queue(self) -> Seq<Invocation> {
        self.queue@
    }

    /// The worker's backpressure policy.
    pub closed spec fn spec_policy(self) -> QueuePolicy {
        self.policy
    }

    /// The queue bound for the bounded policies.
    pub closed spec fn spec_capacity(self) -> usize {
        self.capacity
    }

    /// Well-formedness: a valid dispatch table and a usable bound.
    pub open spec fn wf(self) -> bool {
        self.spec_table().wf() && self.spec_capacity() >= 1
    }

    /// Everything but the handler state and the queue is fixed for the
    /// worker's lifetime.
    pub open spec fn same_shape(self, other: Self) -> bool {
        self.spec_table() == other.spec_table() && self.spec_policy() == other.spec_policy()
            && self.spec_capacity() == other.spec_capacity()
    }

    /// Spawns the worker for one namespace: the given handler instance,
    /// its dispatch table, and an empty queue under the chosen policy.
    pub fn spawn(handler: H, table: DispatchTable, policy: QueuePolicy, capacity: usize) -> (r:
        Self)
        requires
            table.wf(),
            capacity >= 1,
        ensures
            r.wf(),
            r.spec_handler() == handler,
            r.spec_table() == table,
            r.spec_queue() =~= Seq::<Invocation>::empty(),
            r.spec_policy() == policy,
            r.spec_capacity() == capacity,
    {
        NamespaceWorker { handler, table, queue: Vec::new(), policy, capacity }
    }

    /// The namespace's dispatch table.
    pub fn table(&self) -> (r: &DispatchTable)
        ensures
            r == self.spec_table(),
    {
        &self.table
    }

    /// How many invocations are pending.
    pub fn pending(&self) -> (r: usize)
        ensures
            r == self.spec_queue().len(),
    {
        self.queue.len()
    }

    /// Delivers one invocation into this worker's queue, under its policy.
    /// No sink is ever lost: the invocation is queued, or handed back, or
    /// queued while the oldest pending invocation's sink is rejected with
    /// an overload diagnostic.
    pub fn enqueue(&mut self, inv: Invocation) -> (r: EnqueueEffect)
        requires
            old(self).wf(),
        ensures
            final(self).wf(),
            final(self).same_shape(*old(self)),
            final(self).spec_handler() == old(self).spec_handler(),
            enqueue_post(*old(self), *final(self), inv, r),
    {
        match self.policy {
            QueuePolicy::Unbounded => {
                self.queue.push(inv);
                EnqueueEffect::Accepted
            },
            QueuePolicy::Blocking => {
                if self.queue.len() < self.capacity {
                    self.queue.push(inv);
                    EnqueueEffect::Accepted
                } else {
                    EnqueueEffect::Refused(inv)
                }
            },
            QueuePolicy::Lossy => {
                if self.queue.len() < self.capacity {
                    self.queue.push(inv);
                    EnqueueEffect::Accepted
                } else {
                    let oldest = self.queue.remove(0);
                    self.queue.push(inv);
                    let msg = format_overloaded(oldest.command.as_str());
                    proof {
                        assert(self.queue@ =~= old(self).queue@.drop_first().push(inv));
                    }
                    EnqueueEffect::AcceptedDroppingOldest(oldest.sink.reject(msg))
                }
            },
        }
    }

    /// Processes the oldest pending invocation, if any: re-derives the
    /// method name from the full command, looks it up in the dispatch
    /// table, runs the handler on a match, and consumes the invocation's
    /// sink with exactly one terminal completion.
    pub fn step(&mut self) -> (r: Option<Completion>)
        requires
            old(self).wf(),
        ensures
            final(self).wf(),
            final(self).same_shape(*old(self)),
            match r {
                None => old(self).spec_queue().len() == 0 && *final(self) == *old(self),
                Some(c) => old(self).spec_queue().len() > 0 && final(self).spec_queue() == old(
                    self,
                ).spec_queue().drop_first() && c.sink_id == old(self).spec_queue()[0].sink.id()
                    && completion_matches(
                    old(self).spec_table(),
                    old(self).spec_queue()[0].command@,
                    c,
                ),
            },
    {
        if self.queue.len() == 0 {
            return None;
        }
        let inv = self.queue.remove(0);
        proof {
            assert(self.queue@ =~= old(self).queue@.drop_first());
        }
        let Invocation { command, payload, sink } = inv;
        match parse_command(command.as_str()) {
            Some(parts) => {
                match self.table.lookup(parts.method.as_str()) {
                    Some(_) => {
                        let out = self.handler.handle_incoming_request(
                            parts.method.as_str(),
                            &payload,
                        );
                        Some(sink.resolve(out))
                    },
                    None => {
                        let msg = format_method_not_found(command.as_str());
                        Some(sink.reject(msg))
                    },
                }
            },
            None => {
                let msg = format_method_not_found(command.as_str());
                Some(sink.reject(msg))
            },
        }
    }

    /// Processes every pending invocation, oldest first, and returns their
    /// completions: one completion per pending invocation, in arrival
    /// order. Under the non-lossy policies nothing is ever removed from
    /// the queue except by processing, so response resolution order equals
    /// arrival order, per namespace.
    #[verifier::loop_isolation(false)]
    pub fn run_pending(&mut self) -> (r: Vec<Completion>)
        requires
            old(self).wf(),
        ensures
            final(self).wf(),
            final(self).same_shape(*old(self)),
            run_post(*old(self), *final(self), r@),
    {
        let mut out: Vec<Completion> = Vec::new();
        loop
            invariant
                self.wf(),
                self.same_shape(*old(self)),
                out@.len() <= old(self).spec_queue().len(),
                self.spec_queue() =~= old(self).spec_queue().skip(out@.len() as int),
                forall|i: int|
                    0 <= i < out@.len() ==> out@[i].sink_id == old(self).spec_queue()[i].sink.id()
                        && completion_matches(
                        old(self).spec_table(),
                        old(self).spec_queue()[i].command@,
                        out@[i],
                    ),
            decreases self.spec_queue().len(),
        {
            let ghost done = out@.len() as int;
            match self.step() {
                Some(c) => {
                    proof {
                        assert(old(self).spec_queue().skip(done)[0] == old(self).spec_queue()[
                            done
                        ]);
                        assert(old(self).spec_queue().skip(done).drop_first() =~= old(
                            self,
                        ).spec_queue().skip(done + 1));
                    }
                    out.push(c);
                },
                None => {
                    proof {
                        assert(out@.len() == old(self).spec_queue().len());
                    }
                    return out;
                },
            }
        }
    }
}

} // verus!
