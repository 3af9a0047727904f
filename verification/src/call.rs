//! One call to one member, from the moment it is made to its end.
//!
//! A `Call` holds what is to be done for the call until the runtime takes it,
//! and follows the call through its phases. The runtime tells it what
//! happens; it hands out the `Outbound` when the call starts and the
//! `Completion` when the reply arrives, each at most once.

use vstd::prelude::*;
use crate::dispatch::{done_by_phase, times, Duty, Phase, Signal};
use crate::entities::{RaftAppendEntriesRequest, RaftInstallSnapshotRequest, RaftVoteRequest};
use crate::messages::{AppendEntriesRequest, InstallSnapshotRequest, NodeId, VoteRequest};
use crate::proximity::{
    carries, settle, settles, Arrival, Completion, NodeProximity, Outbound, RaftProtocolBehavior,
};
use crate::route::RpcKind;

verus! {

/// Where a call stands, with what is to be done for it as long as the call
/// has not started.
#[derive(Debug)]
enum Stage<M, W> {
    Ready(Outbound<M, W>),
    InFlight,
    Settled,
    Cancelled,
}

/// A call of `rpc` to `peer`.
#[derive(Debug)]
pub struct Call<M, W> {
    peer: NodeId,
    rpc: RpcKind,
    stage: Stage<M, W>,
}

/// A call as the contracts see it.
pub struct CallState<M, W> {
    /// The member the call is for.
    pub peer: NodeId,
    pub rpc: RpcKind,
    pub phase: Phase,
    /// What is to be done for the call, as long as the runtime has not taken
    /// it.
    pub outbound: Option<Outbound<M, W>>,
}

impl<M, W> CallState<M, W> {
    /// A call holds what is to be done for it exactly until it starts or is
    /// cancelled.
    pub open spec fn well_formed(self) -> bool {
        self.outbound is Some <==> self.phase == Phase::Ready
    }

    /// The call after `signal`.
    pub open spec fn after(self, signal: Signal) -> CallState<M, W> {
        CallState {
            peer: self.peer,
            rpc: self.rpc,
            phase: self.phase.step(signal).0,
            outbound: if signal == Signal::Arrival {
                self.outbound
            } else {
                None
            },
        }
    }

    /// What the call hands out to be performed when `signal` comes.
    pub open spec fn hands_out(self, signal: Signal) -> Option<Outbound<M, W>> {
        if self.phase.step(signal).1 == Duty::Perform {
            self.outbound
        } else {
            None
        }
    }

    /// The call after all of `signals`, in their order.
    pub open spec fn after_all(self, signals: Seq<Signal>) -> CallState<M, W>
        decreases signals.len(),
    {
        if signals.len() == 0 {
            self
        } else {
            self.after_all(signals.drop_last()).after(signals.last())
        }
    }

    /// All that the call hands out to be performed along `signals`.
    pub open spec fn handed_out(self, signals: Seq<Signal>) -> Seq<Outbound<M, W>>
        decreases signals.len(),
    {
        if signals.len() == 0 {
            Seq::empty()
        } else {
            let so_far = self.handed_out(signals.drop_last());
            match self.after_all(signals.drop_last()).hands_out(signals.last()) {
                Some(outbound) => so_far.push(outbound),
                None => so_far,
            }
        }
    }
}

/// What a call was made to do is handed out to be performed once if the call
/// ever starts, and never if it does not: whatever signals come, and in
/// whatever order, the engine or the peer gets the message of a call at most
/// once, and gets no other.
pub proof fn handed_out_once<M, W>(call: CallState<M, W>, signals: Seq<Signal>)
    requires
        call.well_formed(),
        call.phase == Phase::Ready,
    ensures
        call.after_all(signals).well_formed(),
        call.after_all(signals).phase == Phase::Ready.after(signals),
        call.after_all(signals).phase == Phase::Ready ==> call.after_all(signals).outbound
            == call.outbound,
        call.handed_out(signals) == if times(Phase::Ready.duties(signals), Duty::Perform) == 1 {
            seq![call.outbound->0]
        } else {
            Seq::<Outbound<M, W>>::empty()
        },
    decreases signals.len(),
{
    if signals.len() > 0 {
        let before = signals.drop_last();
        handed_out_once(call, before);
        done_by_phase(before);
        assert(Phase::Ready.duties(signals).drop_last() =~= Phase::Ready.duties(before));
    }
}

impl<M, W> View for Call<M, W> {
    type V = CallState<M, W>;

    closed spec fn view(&self) -> CallState<M, W> {
        CallState {
            peer: self.peer,
            rpc: self.rpc,
            phase: match self.stage {
                Stage::Ready(_) => Phase::Ready,
                Stage::InFlight => Phase::InFlight,
                Stage::Settled => Phase::Settled,
                Stage::Cancelled => Phase::Cancelled,
            },
            outbound: match self.stage {
                Stage::Ready(outbound) => Some(outbound),
                _ => None,
            },
        }
    }
}

impl<D> Call<AppendEntriesRequest<D>, RaftAppendEntriesRequest<D>> {
    /// The call that replicates `rpc` to `peer`, ready to start.
    pub fn append_entries(peer: &NodeProximity, rpc: AppendEntriesRequest<D>) -> (call: Self)
        ensures
            call@.peer == peer@.id(),
            call@.rpc == RpcKind::AppendEntries,
            call@.phase == Phase::Ready,
            call@.outbound matches Some(outbound) && carries(
                outbound,
                peer@.route(RpcKind::AppendEntries),
                rpc,
                RaftAppendEntriesRequest::of(rpc),
            ),
    {
        let outbound = peer.append_entries(rpc);
        Call { peer: peer.id(), rpc: RpcKind::AppendEntries, stage: Stage::Ready(outbound) }
    }
}

impl Call<InstallSnapshotRequest, RaftInstallSnapshotRequest> {
    /// The call that sends the chunk `rpc` to `peer`, ready to start.
    pub fn install_snapshot(peer: &NodeProximity, rpc: InstallSnapshotRequest) -> (call: Self)
        ensures
            call@.peer == peer@.id(),
            call@.rpc == RpcKind::InstallSnapshot,
            call@.phase == Phase::Ready,
            call@.outbound matches Some(outbound) && carries(
                outbound,
                peer@.route(RpcKind::InstallSnapshot),
                rpc,
                RaftInstallSnapshotRequest::of(rpc),
            ),
    {
        let outbound = peer.install_snapshot(rpc);
        Call { peer: peer.id(), rpc: RpcKind::InstallSnapshot, stage: Stage::Ready(outbound) }
    }
}

impl Call<VoteRequest, RaftVoteRequest> {
    /// The call that asks `peer` for its vote, ready to start.
    pub fn vote(peer: &NodeProximity, rpc: VoteRequest) -> (call: Self)
        ensures
            call@.peer == peer@.id(),
            call@.rpc == RpcKind::Vote,
            call@.phase == Phase::Ready,
            call@.outbound matches Some(outbound) && carries(
                outbound,
                peer@.route(RpcKind::Vote),
                rpc,
                RaftVoteRequest::of(rpc),
            ),
    {
        let outbound = peer.vote(rpc);
        Call { peer: peer.id(), rpc: RpcKind::Vote, stage: Stage::Ready(outbound) }
    }
}

impl<M, W> Call<M, W> {
    /// Every call is well formed.
    pub proof fn is_well_formed(&self)
        ensures
            self@.well_formed(),
    {
    }

    /// Where the call stands.
    pub fn phase(&self) -> (phase: Phase)
        ensures
            phase == self@.phase,
    {
        match self.stage {
            Stage::Ready(_) => Phase::Ready,
            Stage::InFlight => Phase::InFlight,
            Stage::Settled => Phase::Settled,
            Stage::Cancelled => Phase::Cancelled,
        }
    }

    /// The caller's task runs the call. Hands out what is to be done, the
    /// first time; after that, and for a call that was cancelled before, there
    /// is nothing to do.
    pub fn start(&mut self) -> (perform: Option<Outbound<M, W>>)
        ensures
            final(self)@ == old(self)@.after(Signal::Start),
            perform == old(self)@.hands_out(Signal::Start),
    {
        let mut stage = Stage::InFlight;
        core::mem::swap(&mut self.stage, &mut stage);
        match stage {
            Stage::Ready(outbound) => Some(outbound),
            other => {
                self.stage = other;
                None
            },
        }
    }

    /// The reply is there. Hands out the end of the call if the call was in
    /// flight; a reply for a call that is not is dropped.
    pub fn arrive<R: From<V>, V, E>(&mut self, arrival: Arrival<R, V, E>) -> (conclude: Option<
        Completion<R, E>,
    >)
        ensures
            final(self)@ == old(self)@.after(Signal::Arrival),
            conclude is Some <==> old(self)@.phase.step(Signal::Arrival).1 == Duty::Conclude,
            conclude matches Some(done) ==> settles(done, old(self)@.peer, old(self)@.rpc, arrival),
    {
        match self.stage {
            Stage::InFlight => {
                self.stage = Stage::Settled;
                Some(settle(self.peer, self.rpc, arrival))
            },
            _ => None,
        }
    }

    /// The caller's task is cancelled. Says whether an outstanding operation
    /// is to be let go of: it is for a call in flight, and for no other.
    pub fn cancel(&mut self) -> (abort: bool)
        ensures
            final(self)@ == old(self)@.after(Signal::Cancel),
            abort <==> old(self)@.phase.step(Signal::Cancel).1 == Duty::Abort,
            abort <==> old(self)@.phase.outstanding(),
            !final(self)@.phase.outstanding(),
    {
        let mut stage = Stage::Cancelled;
        core::mem::swap(&mut self.stage, &mut stage);
        match stage {
            Stage::InFlight => true,
            Stage::Settled => {
                self.stage = Stage::Settled;
                false
            },
            _ => false,
        }
    }
}

} // verus!
