//! The messages that the broadcast engines deliver.

use vstd::prelude::*;

verus! {

/// A point in time: whole seconds since the Unix epoch and the nanoseconds
/// within that second.
#[derive(Clone, Copy, Debug, PartialEq, Eq, Structural)]
pub struct Timestamp {
    pub seconds: i64,
    pub nanos: i32,
}

/// The role of a node in the cluster.
#[derive(Clone, Copy, Debug, PartialEq, Eq, Structural)]
pub enum NodeType {
    /// The coordinator.
    JobManager,
    /// A worker.
    TaskWorker,
}

/// Correlation token of a running execution. The engines never look inside.
#[derive(Clone, Copy, Debug, PartialEq, Eq, Structural)]
pub struct ExecutionId {
    pub token: u64,
}

/// Liveness signal sent on every tick of a heartbeat engine.
#[derive(Clone, Copy, Debug, PartialEq, Eq, Structural)]
pub struct Heartbeat {
    /// Position of the tick in the engine's sequence, starting at 0.
    pub heartbeat_id: u64,
    /// Time captured when the tick fired.
    pub timestamp: Timestamp,
    pub node_type: NodeType,
    pub execution_id: Option<ExecutionId>,
}

/// Acknowledgment submitted by a caller and delivered by an ack engine.
/// The two kinds are wire codes that the engine passes through untouched.
#[derive(Clone, Copy, Debug, PartialEq, Eq, Structural)]
pub struct Ack {
    pub timestamp: Option<Timestamp>,
    pub ack_type: i32,
    pub node_type: i32,
    pub execution_id: Option<ExecutionId>,
    pub request_id: Option<u64>,
}

} // verus!
