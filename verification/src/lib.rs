//! A typesafe command-routing core for process-to-process procedure calls.
//!
//! A [`Router`] merges independently registered namespaces, each with its
//! own path prefix and dispatch table, into a single entry point. Incoming
//! commands carry both the namespace prefix and the method name in one
//! string; the router demultiplexes them to per-namespace workers, which
//! process invocations in arrival order and resolve each invocation's
//! response sink exactly once. An [`EventTrigger`] is the outbound
//! counterpart: it builds namespace-qualified event envelopes and plans
//! their delivery to a scope of connected clients.

pub mod command;
pub mod export;
pub mod invoke;
pub mod registry;
pub mod router;
pub mod trigger;
pub mod worker;

pub use invoke::{Invocation, ResponseSink, Outcome, Completion};
pub use registry::{
    MethodAttrs, Arg, IpcMethod, Procedures, ProceduresAttrs, DispatchTable, MethodEntry,
    RegistryError, build_dispatch_table,
};
pub use router::{Router, RouterError, Namespace, IpcHandler, Dispatched, create_ipc_handler};
pub use trigger::{EventTrigger, Windows, Delivery, EventEnvelope};
pub use worker::{
    NamespaceWorker, TauRpcHandler, QueuePolicy, EnqueueEffect, DEFAULT_QUEUE_CAPACITY,
};
