//! The members of the cluster that this member can reach.
//!
//! A member is entered when it joins the cluster and taken out when it
//! leaves. In between it is kept as it was entered. No two entries are for
//! the same member.

use std::collections::HashMap;
use vstd::prelude::*;
use crate::call::Call;
use crate::dispatch::Phase;
use crate::entities::{RaftAppendEntriesRequest, RaftInstallSnapshotRequest, RaftVoteRequest};
use crate::messages::{AppendEntriesRequest, InstallSnapshotRequest, NodeId, VoteRequest};
use crate::proximity::{carries, NodeProximity, Proximity};
use crate::route::RpcKind;

verus! {

broadcast use vstd::std_specs::hash::group_hash_axioms;

/// Every member is filed under its own identifier, so that there is at most
/// one entry for each.
pub open spec fn one_per_member(members: Map<NodeId, Proximity>) -> bool {
    forall|id: NodeId| members.contains_key(id) ==> (#[trigger] members[id]).id() == id
}

/// The members that can be reached, by their identifiers.
#[derive(Debug)]
pub struct Topology {
    members: HashMap<NodeId, NodeProximity>,
}

impl View for Topology {
    type V = Map<NodeId, Proximity>;

    closed spec fn view(&self) -> Map<NodeId, Proximity> {
        self.members@.map_values(|member: NodeProximity| member@)
    }
}

impl Topology {
    #[verifier::type_invariant]
    spec fn filed_by_id(self) -> bool {
        forall|id: NodeId| #[trigger]
            self.members@.contains_key(id) ==> self.members@[id]@.id() == id
    }

    /// A cluster of which no member is known yet.
    pub fn new() -> (topology: Topology)
        ensures
            topology@ == Map::<NodeId, Proximity>::empty(),
            one_per_member(topology@),
    {
        Topology { members: HashMap::new() }
    }

    /// How many members are known.
    pub fn len(&self) -> (count: usize)
        ensures
            count == self@.len(),
            one_per_member(self@),
    {
        proof {
            use_type_invariant(self);
            assert(self@.dom() =~= self.members@.dom());
        }
        self.members.len()
    }

    /// Enters `member`, unless a member with its identifier is known already:
    /// then nothing changes, and the member that is known stays as it is.
    pub fn join(&mut self, member: NodeProximity) -> (joined: bool)
        ensures
            joined <==> !old(self)@.contains_key(member@.id()),
            final(self)@ == if joined {
                old(self)@.insert(member@.id(), member@)
            } else {
                old(self)@
            },
            one_per_member(final(self)@),
    {
        proof {
            use_type_invariant(&*self);
        }
        let id = member.id();
        if self.members.contains_key(&id) {
            false
        } else {
            // The table is changed outside the struct, which then never
            // holds a table that breaks its invariant.
            let mut members = HashMap::new();
            core::mem::swap(&mut self.members, &mut members);
            members.insert(id, member);
            core::mem::swap(&mut self.members, &mut members);
            true
        }
    }

    /// Takes the member `id` out, and hands back what was known of it.
    pub fn leave(&mut self, id: NodeId) -> (left: Option<NodeProximity>)
        ensures
            final(self)@ == old(self)@.remove(id),
            match left {
                Some(member) => old(self)@.contains_key(id) && member@ == old(self)@[id],
                None => !old(self)@.contains_key(id),
            },
            one_per_member(final(self)@),
    {
        proof {
            use_type_invariant(&*self);
        }
        let mut members = HashMap::new();
        core::mem::swap(&mut self.members, &mut members);
        let left = members.remove(&id);
        core::mem::swap(&mut self.members, &mut members);
        left
    }

    /// The member `id`, if it is known.
    pub fn proximity(&self, id: NodeId) -> (found: Option<&NodeProximity>)
        ensures
            match found {
                Some(member) => self@.contains_key(id) && member@ == self@[id] && member@.id()
                    == id,
                None => !self@.contains_key(id),
            },
            one_per_member(self@),
    {
        proof {
            use_type_invariant(self);
        }
        self.members.get(&id)
    }

    /// The call that replicates `rpc` to the member it is for, ready to
    /// start; none where that member is not known.
    pub fn append_entries<D>(&self, rpc: AppendEntriesRequest<D>) -> (call: Option<
        Call<AppendEntriesRequest<D>, RaftAppendEntriesRequest<D>>,
    >)
        ensures
            call is Some <==> self@.contains_key(rpc.target),
            call matches Some(call) ==> {
                &&& call@.peer == rpc.target
                &&& call@.rpc == RpcKind::AppendEntries
                &&& call@.phase == Phase::Ready
                &&& call@.outbound matches Some(outbound) && carries(
                    outbound,
                    self@[rpc.target].route(RpcKind::AppendEntries),
                    rpc,
                    RaftAppendEntriesRequest::of(rpc),
                )
            },
    {
        match self.proximity(rpc.target) {
            Some(member) => Some(Call::append_entries(member, rpc)),
            None => None,
        }
    }

    /// The call that sends the chunk `rpc` to the member it is for, ready to
    /// start; none where that member is not known.
    pub fn install_snapshot(&self, rpc: InstallSnapshotRequest) -> (call: Option<
        Call<InstallSnapshotRequest, RaftInstallSnapshotRequest>,
    >)
        ensures
            call is Some <==> self@.contains_key(rpc.target),
            call matches Some(call) ==> {
                &&& call@.peer == rpc.target
                &&& call@.rpc == RpcKind::InstallSnapshot
                &&& call@.phase == Phase::Ready
                &&& call@.outbound matches Some(outbound) && carries(
                    outbound,
                    self@[rpc.target].route(RpcKind::InstallSnapshot),
                    rpc,
                    RaftInstallSnapshotRequest::of(rpc),
                )
            },
    {
        match self.proximity(rpc.target) {
            Some(member) => Some(Call::install_snapshot(member, rpc)),
            None => None,
        }
    }

    /// The call that asks the member `rpc` is for for its vote, ready to
    /// start; none where that member is not known.
    pub fn vote(&self, rpc: VoteRequest) -> (call: Option<Call<VoteRequest, RaftVoteRequest>>)
        ensures
            call is Some <==> self@.contains_key(rpc.target),
            call matches Some(call) ==> {
                &&& call@.peer == rpc.target
                &&& call@.rpc == RpcKind::Vote
                &&& call@.phase == Phase::Ready
                &&& call@.outbound matches Some(outbound) && carries(
                    outbound,
                    self@[rpc.target].route(RpcKind::Vote),
                    rpc,
                    RaftVoteRequest::of(rpc),
                )
            },
    {
        match self.proximity(rpc.target) {
            Some(member) => Some(Call::vote(member, rpc)),
            None => None,
        }
    }
}

} // verus!
