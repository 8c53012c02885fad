//! The messages that agents exchange over the mesh, and the identity an
//! agent announces.

use vstd::prelude::*;

verus! {

/// A capability tag an agent can declare (e.g. "rust", "python", "math").
pub type Capability = String;

/// A point in time: whole seconds since the Unix epoch (UTC) and the
/// nanoseconds past that second (above 999,999,999 only within a leap second).
#[derive(Debug, Clone, Copy, PartialEq, Eq, Structural)]
pub struct Timestamp {
    pub secs: i64,
    pub nanos: u32,
}

/// The current time, from `chrono::Utc::now`, split into seconds and
/// nanoseconds. The clock decides the value; every outcome lies at or after
/// the Unix epoch (`Utc::now` takes the time elapsed since it) and has its
/// nanoseconds below one second.
#[verifier::external_body]
pub(crate) fn now() -> (r: Timestamp)
    ensures
        0 <= r.secs,
        r.nanos < 1_000_000_000,
{
    let t = chrono::Utc::now();
    Timestamp { secs: t.timestamp(), nanos: t.timestamp_subsec_nanos() }
}

/// A self-reported confidence, nominally between 0.0 and 1.0: an `f32`
/// held by its IEEE-754 bit pattern (`f32::to_bits`), so that it is carried
/// exactly as sent.
#[derive(Debug, Clone, Copy, PartialEq, Eq, Structural)]
pub struct Confidence {
    pub bits: u32,
}

/// An agent's identity: its peer id, a human-readable alias and the
/// capabilities it declares.
#[derive(Debug, Clone, PartialEq, Eq)]
pub struct AgentInfo {
    pub peer_id: String,
    pub alias: String,
    pub capabilities: Vec<Capability>,
}

/// Direction of an embedded ACP JSON-RPC payload.
#[derive(Debug, Clone, Copy, PartialEq, Eq, Structural)]
pub enum AcpDirection {
    ClientToAgent,
    AgentToClient,
}

/// An untyped ACP JSON-RPC message: the method name and its parameters as
/// JSON text.
#[derive(Debug, Clone, PartialEq, Eq)]
pub struct AcpPayload {
    pub method: String,
    pub params_json: String,
}

/// Whether `text` is JSON text, as `serde_json::from_str::<serde_json::Value>`
/// decides it (this includes its limit on nesting depth).
pub uninterp spec fn is_json(text: Seq<char>) -> bool;

/// Calls `serde_json::from_str::<serde_json::Value>` and tells whether it
/// parsed; the answer is a function of the text alone, named [`is_json`].
#[verifier::external_body]
pub(crate) fn json_is_valid(text: &str) -> (r: bool)
    ensures
        r == is_json(text@),
{
    serde_json::from_str::<serde_json::Value>(text).is_ok()
}

/// All message types flowing over the mesh.
#[derive(Debug, Clone)]
pub enum AcpMessage {
    /// Agent announces itself to the mesh.
    Announce { agent: AgentInfo, timestamp: Timestamp },
    /// Agent asks a question to the whole mesh; when `required_caps` is not
    /// empty, only agents with one of these capabilities should answer.
    Question {
        question_id: String,
        from_peer: String,
        from_alias: String,
        content: String,
        required_caps: Vec<Capability>,
        timestamp: Timestamp,
    },
    /// Agent answers a previously asked question, with its self-reported
    /// confidence.
    Answer {
        question_id: String,
        from_peer: String,
        from_alias: String,
        content: String,
        confidence: Confidence,
        timestamp: Timestamp,
    },
    /// ACP JSON-RPC payload relayed through the mesh.
    AcpJsonRpc {
        message_id: String,
        from_peer: String,
        from_alias: String,
        direction: AcpDirection,
        payload: AcpPayload,
        timestamp: Timestamp,
    },
    /// Agent gracefully leaves the mesh.
    Goodbye { peer_id: String, alias: String },
}

/// The peer id that a message claims as its sender.
pub open spec fn claimed_peer(m: AcpMessage) -> Seq<char> {
    match m {
        AcpMessage::Announce { agent, .. } => agent.peer_id@,
        AcpMessage::Question { from_peer, .. } => from_peer@,
        AcpMessage::Answer { from_peer, .. } => from_peer@,
        AcpMessage::AcpJsonRpc { from_peer, .. } => from_peer@,
        AcpMessage::Goodbye { peer_id, .. } => peer_id@,
    }
}

impl AcpMessage {
    /// The peer id that this message claims as its sender.
    pub fn claimed_peer_id(&self) -> (r: &str)
        ensures
            r@ == claimed_peer(*self),
    {
        match self {
            AcpMessage::Announce { agent, .. } => agent.peer_id.as_str(),
            AcpMessage::Question { from_peer, .. } => from_peer.as_str(),
            AcpMessage::Answer { from_peer, .. } => from_peer.as_str(),
            AcpMessage::AcpJsonRpc { from_peer, .. } => from_peer.as_str(),
            AcpMessage::Goodbye { peer_id, .. } => peer_id.as_str(),
        }
    }
}

} // verus!
