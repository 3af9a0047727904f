//! The Raft calls as the consensus engine of a member makes and answers them.
//!
//! This layer carries these values and never looks into what they mean: log
//! entries are of a type `E` that the engine chooses.

use vstd::prelude::*;

verus! {

/// The identifier of a cluster member.
pub type NodeId = u64;

/// A leader replicates log entries to a follower, or sends a heartbeat.
#[derive(Debug, PartialEq)]
pub struct AppendEntriesRequest<E> {
    /// The member this call is for.
    pub target: NodeId,
    pub term: u64,
    pub leader_id: NodeId,
    pub prev_log_index: u64,
    pub prev_log_term: u64,
    pub entries: Vec<E>,
    pub leader_commit: u64,
}

/// Where a follower's log parts from the leader's.
#[derive(Clone, Copy, Debug, PartialEq, Eq, Structural)]
pub struct ConflictOpt {
    pub term: u64,
    pub index: u64,
}

/// A follower's answer to `AppendEntriesRequest`.
#[derive(Clone, Copy, Debug, PartialEq, Eq, Structural)]
pub struct AppendEntriesResponse {
    pub term: u64,
    pub success: bool,
    pub conflict_opt: Option<ConflictOpt>,
}

/// A leader sends one chunk of a snapshot to a follower.
#[derive(Debug, PartialEq, Eq)]
pub struct InstallSnapshotRequest {
    /// The member this call is for.
    pub target: NodeId,
    pub term: u64,
    pub leader_id: NodeId,
    pub last_included_index: u64,
    pub last_included_term: u64,
    pub offset: u64,
    pub data: Vec<u8>,
    pub done: bool,
}

/// A follower's answer to `InstallSnapshotRequest`.
#[derive(Clone, Copy, Debug, PartialEq, Eq, Structural)]
pub struct InstallSnapshotResponse {
    pub term: u64,
}

/// A candidate asks a member for its vote.
#[derive(Clone, Copy, Debug, PartialEq, Eq, Structural)]
pub struct VoteRequest {
    /// The member this call is for.
    pub target: NodeId,
    pub term: u64,
    pub candidate_id: NodeId,
    pub last_log_index: u64,
    pub last_log_term: u64,
}

/// A member's answer to `VoteRequest`.
#[derive(Clone, Copy, Debug, PartialEq, Eq, Structural)]
pub struct VoteResponse {
    pub term: u64,
    pub vote_granted: bool,
    pub is_candidate_unknown: bool,
}

} // verus!
