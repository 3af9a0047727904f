//! The form in which each Raft call travels between members, and the mapping
//! between that form and the engine's own.
//!
//! A request on the wire does not say whom it is for: the address it is posted
//! to does. The member that takes it in fills its own identifier in. Log
//! entries and snapshot chunks travel as they are.

use vstd::prelude::*;
use vstd::std_specs::convert::FromSpecImpl;
use crate::messages::{
    AppendEntriesRequest, AppendEntriesResponse, ConflictOpt, InstallSnapshotRequest,
    InstallSnapshotResponse, NodeId, VoteRequest, VoteResponse,
};

verus! {

/// `AppendEntriesRequest` on the wire.
#[derive(Debug, PartialEq)]
pub struct RaftAppendEntriesRequest<D> {
    pub term: u64,
    pub leader_id: NodeId,
    pub prev_log_index: u64,
    pub prev_log_term: u64,
    pub entries: Vec<D>,
    pub leader_commit: u64,
}

/// `ConflictOpt` on the wire.
#[derive(Clone, Copy, Debug, PartialEq, Eq, Structural)]
pub struct RaftConflict {
    pub term: u64,
    pub index: u64,
}

/// `AppendEntriesResponse` on the wire.
#[derive(Clone, Copy, Debug, PartialEq, Eq, Structural)]
pub struct RaftAppendEntriesResponse {
    pub term: u64,
    pub success: bool,
    pub conflict: Option<RaftConflict>,
}

/// `InstallSnapshotRequest` on the wire.
#[derive(Debug, PartialEq, Eq)]
pub struct RaftInstallSnapshotRequest {
    pub term: u64,
    pub leader_id: NodeId,
    pub last_included_index: u64,
    pub last_included_term: u64,
    pub offset: u64,
    pub data: Vec<u8>,
    pub done: bool,
}

/// `InstallSnapshotResponse` on the wire.
#[derive(Clone, Copy, Debug, PartialEq, Eq, Structural)]
pub struct RaftInstallSnapshotResponse {
    pub term: u64,
}

/// `VoteRequest` on the wire.
#[derive(Clone, Copy, Debug, PartialEq, Eq, Structural)]
pub struct RaftVoteRequest {
    pub term: u64,
    pub candidate_id: NodeId,
    pub last_log_index: u64,
    pub last_log_term: u64,
}

/// `VoteResponse` on the wire.
#[derive(Clone, Copy, Debug, PartialEq, Eq, Structural)]
pub struct RaftVoteResponse {
    pub term: u64,
    pub vote_granted: bool,
    pub is_candidate_unknown: bool,
}

impl<D> RaftAppendEntriesRequest<D> {
    /// The wire form of `rpc`: all of it but the addressee.
    pub open spec fn of(rpc: AppendEntriesRequest<D>) -> RaftAppendEntriesRequest<D> {
        RaftAppendEntriesRequest {
            term: rpc.term,
            leader_id: rpc.leader_id,
            prev_log_index: rpc.prev_log_index,
            prev_log_term: rpc.prev_log_term,
            entries: rpc.entries,
            leader_commit: rpc.leader_commit,
        }
    }

    /// The engine's form of this request at `target`, the member that took it in.
    pub open spec fn addressed_to_spec(self, target: NodeId) -> AppendEntriesRequest<D> {
        AppendEntriesRequest {
            target,
            term: self.term,
            leader_id: self.leader_id,
            prev_log_index: self.prev_log_index,
            prev_log_term: self.prev_log_term,
            entries: self.entries,
            leader_commit: self.leader_commit,
        }
    }

    /// The engine's form of this request at `target`, the member that took it in.
    pub fn addressed_to(self, target: NodeId) -> (rpc: AppendEntriesRequest<D>)
        ensures
            rpc == self.addressed_to_spec(target),
    {
        AppendEntriesRequest {
            target,
            term: self.term,
            leader_id: self.leader_id,
            prev_log_index: self.prev_log_index,
            prev_log_term: self.prev_log_term,
            entries: self.entries,
            leader_commit: self.leader_commit,
        }
    }
}

impl<D> From<AppendEntriesRequest<D>> for RaftAppendEntriesRequest<D> {
    fn from(rpc: AppendEntriesRequest<D>) -> (wire: RaftAppendEntriesRequest<D>)
        ensures
            wire == RaftAppendEntriesRequest::of(rpc),
    {
        RaftAppendEntriesRequest {
            term: rpc.term,
            leader_id: rpc.leader_id,
            prev_log_index: rpc.prev_log_index,
            prev_log_term: rpc.prev_log_term,
            entries: rpc.entries,
            leader_commit: rpc.leader_commit,
        }
    }
}

impl<D> FromSpecImpl<AppendEntriesRequest<D>> for RaftAppendEntriesRequest<D> {
    open spec fn obeys_from_spec() -> bool {
        true
    }

    open spec fn from_spec(rpc: AppendEntriesRequest<D>) -> RaftAppendEntriesRequest<D> {
        RaftAppendEntriesRequest::of(rpc)
    }
}

impl RaftConflict {
    /// The wire form of `conflict`.
    pub open spec fn of(conflict: ConflictOpt) -> RaftConflict {
        RaftConflict {
            term: conflict.term,
            index: conflict.index,
        }
    }

    /// The engine's form of this hint.
    pub open spec fn restored(self) -> ConflictOpt {
        ConflictOpt {
            term: self.term,
            index: self.index,
        }
    }
}

impl From<ConflictOpt> for RaftConflict {
    fn from(conflict: ConflictOpt) -> (wire: RaftConflict)
        ensures
            wire == RaftConflict::of(conflict),
    {
        RaftConflict {
            term: conflict.term,
            index: conflict.index,
        }
    }
}

impl FromSpecImpl<ConflictOpt> for RaftConflict {
    open spec fn obeys_from_spec() -> bool {
        true
    }

    open spec fn from_spec(conflict: ConflictOpt) -> RaftConflict {
        RaftConflict::of(conflict)
    }
}

impl From<RaftConflict> for ConflictOpt {
    fn from(wire: RaftConflict) -> (conflict: ConflictOpt)
        ensures
            conflict == wire.restored(),
    {
        ConflictOpt {
            term: wire.term,
            index: wire.index,
        }
    }
}

impl FromSpecImpl<RaftConflict> for ConflictOpt {
    open spec fn obeys_from_spec() -> bool {
        true
    }

    open spec fn from_spec(wire: RaftConflict) -> ConflictOpt {
        wire.restored()
    }
}

impl RaftAppendEntriesResponse {
    /// The wire form of `response`.
    pub open spec fn of(response: AppendEntriesResponse) -> RaftAppendEntriesResponse {
        RaftAppendEntriesResponse {
            term: response.term,
            success: response.success,
            conflict: match response.conflict_opt {
                Some(conflict) => Some(RaftConflict::of(conflict)),
                None => None,
            },
        }
    }

    /// The engine's form of this response.
    pub open spec fn restored(self) -> AppendEntriesResponse {
        AppendEntriesResponse {
            term: self.term,
            success: self.success,
            conflict_opt: match self.conflict {
                Some(conflict) => Some(conflict.restored()),
                None => None,
            },
        }
    }
}

impl From<AppendEntriesResponse> for RaftAppendEntriesResponse {
    fn from(response: AppendEntriesResponse) -> (wire: RaftAppendEntriesResponse)
        ensures
            wire == RaftAppendEntriesResponse::of(response),
    {
        let conflict = match response.conflict_opt {
            Some(conflict) => Some(RaftConflict::from(conflict)),
            None => None,
        };
        RaftAppendEntriesResponse {
            term: response.term,
            success: response.success,
            conflict,
        }
    }
}

impl FromSpecImpl<AppendEntriesResponse> for RaftAppendEntriesResponse {
    open spec fn obeys_from_spec() -> bool {
        true
    }

    open spec fn from_spec(response: AppendEntriesResponse) -> RaftAppendEntriesResponse {
        RaftAppendEntriesResponse::of(response)
    }
}

impl From<RaftAppendEntriesResponse> for AppendEntriesResponse {
    fn from(wire: RaftAppendEntriesResponse) -> (response: AppendEntriesResponse)
        ensures
            response == wire.restored(),
    {
        let conflict_opt = match wire.conflict {
            Some(conflict) => Some(ConflictOpt::from(conflict)),
            None => None,
        };
        AppendEntriesResponse {
            term: wire.term,
            success: wire.success,
            conflict_opt,
        }
    }
}

impl FromSpecImpl<RaftAppendEntriesResponse> for AppendEntriesResponse {
    open spec fn obeys_from_spec() -> bool {
        true
    }

    open spec fn from_spec(wire: RaftAppendEntriesResponse) -> AppendEntriesResponse {
        wire.restored()
    }
}

impl RaftInstallSnapshotRequest {
    /// The wire form of `rpc`: all of it but the addressee.
    pub open spec fn of(rpc: InstallSnapshotRequest) -> RaftInstallSnapshotRequest {
        RaftInstallSnapshotRequest {
            term: rpc.term,
            leader_id: rpc.leader_id,
            last_included_index: rpc.last_included_index,
            last_included_term: rpc.last_included_term,
            offset: rpc.offset,
            data: rpc.data,
            done: rpc.done,
        }
    }

    /// The engine's form of this request at `target`, the member that took it in.
    pub open spec fn addressed_to_spec(self, target: NodeId) -> InstallSnapshotRequest {
        InstallSnapshotRequest {
            target,
            term: self.term,
            leader_id: self.leader_id,
            last_included_index: self.last_included_index,
            last_included_term: self.last_included_term,
            offset: self.offset,
            data: self.data,
            done: self.done,
        }
    }

    /// The engine's form of this request at `target`, the member that took it in.
    pub fn addressed_to(self, target: NodeId) -> (rpc: InstallSnapshotRequest)
        ensures
            rpc == self.addressed_to_spec(target),
    {
        InstallSnapshotRequest {
            target,
            term: self.term,
            leader_id: self.leader_id,
            last_included_index: self.last_included_index,
            last_included_term: self.last_included_term,
            offset: self.offset,
            data: self.data,
            done: self.done,
        }
    }
}

impl From<InstallSnapshotRequest> for RaftInstallSnapshotRequest {
    fn from(rpc: InstallSnapshotRequest) -> (wire: RaftInstallSnapshotRequest)
        ensures
            wire == RaftInstallSnapshotRequest::of(rpc),
    {
        RaftInstallSnapshotRequest {
            term: rpc.term,
            leader_id: rpc.leader_id,
            last_included_index: rpc.last_included_index,
            last_included_term: rpc.last_included_term,
            offset: rpc.offset,
            data: rpc.data,
            done: rpc.done,
        }
    }
}

impl FromSpecImpl<InstallSnapshotRequest> for RaftInstallSnapshotRequest {
    open spec fn obeys_from_spec() -> bool {
        true
    }

    open spec fn from_spec(rpc: InstallSnapshotRequest) -> RaftInstallSnapshotRequest {
        RaftInstallSnapshotRequest::of(rpc)
    }
}

impl RaftInstallSnapshotResponse {
    /// The wire form of `response`.
    pub open spec fn of(response: InstallSnapshotResponse) -> RaftInstallSnapshotResponse {
        RaftInstallSnapshotResponse {
            term: response.term,
        }
    }

    /// The engine's form of this response.
    pub open spec fn restored(self) -> InstallSnapshotResponse {
        InstallSnapshotResponse {
            term: self.term,
        }
    }
}

impl From<InstallSnapshotResponse> for RaftInstallSnapshotResponse {
    fn from(response: InstallSnapshotResponse) -> (wire: RaftInstallSnapshotResponse)
        ensures
            wire == RaftInstallSnapshotResponse::of(response),
    {
        RaftInstallSnapshotResponse {
            term: response.term,
        }
    }
}

impl FromSpecImpl<InstallSnapshotResponse> for RaftInstallSnapshotResponse {
    open spec fn obeys_from_spec() -> bool {
        true
    }

    open spec fn from_spec(response: InstallSnapshotResponse) -> RaftInstallSnapshotResponse {
        RaftInstallSnapshotResponse::of(response)
    }
}

impl From<RaftInstallSnapshotResponse> for InstallSnapshotResponse {
    fn from(wire: RaftInstallSnapshotResponse) -> (response: InstallSnapshotResponse)
        ensures
            response == wire.restored(),
    {
        InstallSnapshotResponse {
            term: wire.term,
        }
    }
}

impl FromSpecImpl<RaftInstallSnapshotResponse> for InstallSnapshotResponse {
    open spec fn obeys_from_spec() -> bool {
        true
    }

    open spec fn from_spec(wire: RaftInstallSnapshotResponse) -> InstallSnapshotResponse {
        wire.restored()
    }
}

impl RaftVoteRequest {
    /// The wire form of `rpc`: all of it but the addressee.
    pub open spec fn of(rpc: VoteRequest) -> RaftVoteRequest {
        RaftVoteRequest {
            term: rpc.term,
            candidate_id: rpc.candidate_id,
            last_log_index: rpc.last_log_index,
            last_log_term: rpc.last_log_term,
        }
    }

    /// The engine's form of this request at `target`, the member that took it in.
    pub open spec fn addressed_to_spec(self, target: NodeId) -> VoteRequest {
        VoteRequest {
            target,
            term: self.term,
            candidate_id: self.candidate_id,
            last_log_index: self.last_log_index,
            last_log_term: self.last_log_term,
        }
    }

    /// The engine's form of this request at `target`, the member that took it in.
    pub fn addressed_to(self, target: NodeId) -> (rpc: VoteRequest)
        ensures
            rpc == self.addressed_to_spec(target),
    {
        VoteRequest {
            target,
            term: self.term,
            candidate_id: self.candidate_id,
            last_log_index: self.last_log_index,
            last_log_term: self.last_log_term,
        }
    }
}

impl From<VoteRequest> for RaftVoteRequest {
    fn from(rpc: VoteRequest) -> (wire: RaftVoteRequest)
        ensures
            wire == RaftVoteRequest::of(rpc),
    {
        RaftVoteRequest {
            term: rpc.term,
            candidate_id: rpc.candidate_id,
            last_log_index: rpc.last_log_index,
            last_log_term: rpc.last_log_term,
        }
    }
}

impl FromSpecImpl<VoteRequest> for RaftVoteRequest {
    open spec fn obeys_from_spec() -> bool {
        true
    }

    open spec fn from_spec(rpc: VoteRequest) -> RaftVoteRequest {
        RaftVoteRequest::of(rpc)
    }
}

impl RaftVoteResponse {
    /// The wire form of `response`.
    pub open spec fn of(response: VoteResponse) -> RaftVoteResponse {
        RaftVoteResponse {
            term: response.term,
            vote_granted: response.vote_granted,
            is_candidate_unknown: response.is_candidate_unknown,
        }
    }

    /// The engine's form of this response.
    pub open spec fn restored(self) -> VoteResponse {
        VoteResponse {
            term: self.term,
            vote_granted: self.vote_granted,
            is_candidate_unknown: self.is_candidate_unknown,
        }
    }
}

impl From<VoteResponse> for RaftVoteResponse {
    fn from(response: VoteResponse) -> (wire: RaftVoteResponse)
        ensures
            wire == RaftVoteResponse::of(response),
    {
        RaftVoteResponse {
            term: response.term,
            vote_granted: response.vote_granted,
            is_candidate_unknown: response.is_candidate_unknown,
        }
    }
}

impl FromSpecImpl<VoteResponse> for RaftVoteResponse {
    open spec fn obeys_from_spec() -> bool {
        true
    }

    open spec fn from_spec(response: VoteResponse) -> RaftVoteResponse {
        RaftVoteResponse::of(response)
    }
}

impl From<RaftVoteResponse> for VoteResponse {
    fn from(wire: RaftVoteResponse) -> (response: VoteResponse)
        ensures
            response == wire.restored(),
    {
        VoteResponse {
            term: wire.term,
            vote_granted: wire.vote_granted,
            is_candidate_unknown: wire.is_candidate_unknown,
        }
    }
}

impl FromSpecImpl<RaftVoteResponse> for VoteResponse {
    open spec fn obeys_from_spec() -> bool {
        true
    }

    open spec fn from_spec(wire: RaftVoteResponse) -> VoteResponse {
        wire.restored()
    }
}

/// An `AppendEntriesRequest` put on the wire and taken in by the member it
/// was for is the request that was sent, entries included.
pub proof fn append_entries_request_round_trip<D>(rpc: AppendEntriesRequest<D>)
    ensures
        RaftAppendEntriesRequest::of(rpc).addressed_to_spec(rpc.target) == rpc,
{
}

/// An `AppendEntriesResponse` put on the wire and taken off it is the
/// response that was given, the conflict hint included.
pub proof fn append_entries_response_round_trip(response: AppendEntriesResponse)
    ensures
        RaftAppendEntriesResponse::of(response).restored() == response,
{
}

/// An `InstallSnapshotRequest` put on the wire and taken in by the member it
/// was for is the request that was sent, the chunk included.
pub proof fn install_snapshot_request_round_trip(rpc: InstallSnapshotRequest)
    ensures
        RaftInstallSnapshotRequest::of(rpc).addressed_to_spec(rpc.target) == rpc,
{
}

/// An `InstallSnapshotResponse` put on the wire and taken off it is the
/// response that was given.
pub proof fn install_snapshot_response_round_trip(response: InstallSnapshotResponse)
    ensures
        RaftInstallSnapshotResponse::of(response).restored() == response,
{
}

/// A `VoteRequest` put on the wire and taken in by the member it was for is
/// the request that was sent.
pub proof fn vote_request_round_trip(rpc: VoteRequest)
    ensures
        RaftVoteRequest::of(rpc).addressed_to_spec(rpc.target) == rpc,
{
}

/// A `VoteResponse` put on the wire and taken off it is the response that was
/// given.
pub proof fn vote_response_round_trip(response: VoteResponse)
    ensures
        RaftVoteResponse::of(response).restored() == response,
{
}

/// Whoever takes a request in, everything but the addressee is as it was sent.
pub proof fn request_keeps_all_but_target<D>(
    entries: AppendEntriesRequest<D>,
    snapshot: InstallSnapshotRequest,
    vote: VoteRequest,
    target: NodeId,
)
    ensures
        RaftAppendEntriesRequest::of(entries).addressed_to_spec(target)
            == (AppendEntriesRequest { target, ..entries }),
        RaftInstallSnapshotRequest::of(snapshot).addressed_to_spec(target)
            == (InstallSnapshotRequest { target, ..snapshot }),
        RaftVoteRequest::of(vote).addressed_to_spec(target)
            == (VoteRequest { target, ..vote }),
{
}

} // verus!
