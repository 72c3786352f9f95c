//! Inbound calls and their terminal responses.
//!
//! An [`Invocation`] describes one inbound call: the full wire-format
//! command string, an opaque argument payload, and a single-use
//! [`ResponseSink`]. The sink is a capability: it is consumed, by value, by
//! exactly one of [`ResponseSink::resolve`] or [`ResponseSink::reject`],
//! which yields the one terminal [`Completion`] that the transport carries
//! back to the caller. Neither type implements `Clone`, so an invocation
//! can never answer twice; the routing and worker code in this crate never
//! drops a sink, so every accepted invocation answers exactly once.

use vstd::prelude::*;

verus! {

/// A single-use response capability, identified by a transport-chosen id.
#[derive(Debug)]
pub struct ResponseSink {
    id: u64,
}

/// The terminal answer to one invocation: either the serialized output of
/// the handler (which itself encodes application-level success or failure
/// as part of the payload shape), or a protocol-level rejection with a
/// diagnostic message.
#[derive(Debug, PartialEq)]
pub enum Outcome {
    Resolved(Vec<u8>),
    Rejected(String),
}

impl Outcome {
    /// Whether this outcome is a rejection carrying exactly the message
    /// `msg`.
    pub open spec fn is_rejection_with(self, msg: Seq<char>) -> bool {
        match self {
            Outcome::Rejected(s) => s@ == msg,
            Outcome::Resolved(_) => false,
        }
    }
}

/// A consumed response sink together with its outcome.
#[derive(Debug)]
pub struct Completion {
    pub sink_id: u64,
    pub outcome: Outcome,
}

impl ResponseSink {
    /// The id the sink was created with.
    pub closed spec fn id(self) -> u64 {
        self.id
    }

    /// Creates a sink for the response channel identified by `id`.
    pub fn new(id: u64) -> (r: Self)
        ensures
            r.id() == id,
    {
        ResponseSink { id }
    }

    /// The id of this sink, for correlating completions with invocations.
    pub fn sink_id(&self) -> (r: u64)
        ensures
            r == self.id(),
    {
        self.id
    }

    /// Consumes the sink with a successful, serialized response.
    pub fn resolve(self, value: Vec<u8>) -> (c: Completion)
        ensures
            c.sink_id == self.id(),
            c.outcome == Outcome::Resolved(value),
    {
        let id = self.sink_id();
        Completion { sink_id: id, outcome: Outcome::Resolved(value) }
    }

    /// Consumes the sink with a protocol-level rejection.
    pub fn reject(self, message: String) -> (c: Completion)
        ensures
            c.sink_id == self.id(),
            c.outcome == Outcome::Rejected(message),
    {
        let id = self.sink_id();
        Completion { sink_id: id, outcome: Outcome::Rejected(message) }
    }
}

/// One inbound call: the full wire-format command name, the opaque
/// serialized argument payload, and the single-use response sink. Owned by
/// exactly one component at a time: transport, then router, then one
/// namespace worker.
#[derive(Debug)]
pub struct Invocation {
    pub command: String,
    pub payload: Vec<u8>,
    pub sink: ResponseSink,
}

impl Invocation {
    /// Bundles one inbound call as delivered by the transport.
    pub fn new(command: String, payload: Vec<u8>, sink: ResponseSink) -> (r: Self)
        ensures
            r.command == command,
            r.payload == payload,
            r.sink == sink,
    {
        Invocation { command, payload, sink }
    }
}

} // verus!
