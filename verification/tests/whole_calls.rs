use raft_transport::call::Call;
use raft_transport::dispatch::Phase;
use raft_transport::entities::{RaftAppendEntriesRequest, RaftVoteRequest, RaftVoteResponse};
use raft_transport::error::{Incident, LogEntry, ProtocolError};
use raft_transport::fault::Fault;
use raft_transport::messages::{
    AppendEntriesRequest, InstallSnapshotRequest, VoteRequest, VoteResponse,
};
use raft_transport::proximity::{
    Arrival, Body, Completion, EngineReply, LocalNode, NodeProximity, Outbound, RemoteNode, Reply,
};

fn here() -> NodeProximity {
    NodeProximity::Local(LocalNode::new(1))
}

fn away() -> NodeProximity {
    NodeProximity::Remote(RemoteNode::new(2, String::from("http://10.0.0.2:8080")))
}

fn vote() -> VoteRequest {
    VoteRequest { target: 2, term: 5, candidate_id: 3, last_log_index: 10, last_log_term: 4 }
}

fn granted() -> Arrival<VoteResponse, RaftVoteResponse, ()> {
    Arrival::FromPeer(Reply::Answered {
        status: 200,
        body: Body::Decoded(RaftVoteResponse {
            term: 5,
            vote_granted: true,
            is_candidate_unknown: false,
        }),
    })
}

#[test]
fn a_call_is_handed_out_once_and_concluded_once() {
    let mut call = Call::vote(&away(), vote());
    assert_eq!(call.phase(), Phase::Ready);
    assert_eq!(
        call.start(),
        Some(Outbound::Post {
            route: String::from("http://10.0.0.2:8080/api/cluster/vote"),
            body: RaftVoteRequest { term: 5, candidate_id: 3, last_log_index: 10, last_log_term: 4 },
        })
    );
    assert_eq!(call.phase(), Phase::InFlight);
    assert_eq!(call.start(), None);
    assert_eq!(call.phase(), Phase::InFlight);
    assert_eq!(
        call.arrive(granted()),
        Some(Completion {
            outcome: Ok(VoteResponse { term: 5, vote_granted: true, is_candidate_unknown: false }),
            log: None,
        })
    );
    assert_eq!(call.phase(), Phase::Settled);
    assert_eq!(call.arrive(granted()), None);
    assert_eq!(call.start(), None);
    assert_eq!(call.phase(), Phase::Settled);
}

#[test]
fn a_local_call_hands_the_message_out_as_it_is() {
    let heartbeat = || AppendEntriesRequest::<u8> {
        target: 1,
        term: 2,
        leader_id: 1,
        prev_log_index: 0,
        prev_log_term: 0,
        entries: Vec::new(),
        leader_commit: 0,
    };
    let mut call = Call::append_entries(&here(), heartbeat());
    let handed: Option<Outbound<AppendEntriesRequest<u8>, RaftAppendEntriesRequest<u8>>> =
        call.start();
    assert_eq!(handed, Some(Outbound::Deliver { message: heartbeat() }));
    assert_eq!(call.start(), None);
}

#[test]
fn a_snapshot_call_hands_its_chunk_out() {
    let chunk = || InstallSnapshotRequest {
        target: 1,
        term: 2,
        leader_id: 1,
        last_included_index: 5,
        last_included_term: 1,
        offset: 0,
        data: vec![1, 2],
        done: true,
    };
    let mut call = Call::install_snapshot(&here(), chunk());
    assert_eq!(call.start(), Some(Outbound::Deliver { message: chunk() }));
}

#[test]
fn a_reply_before_the_start_is_dropped() {
    let mut call = Call::vote(&away(), vote());
    assert_eq!(call.arrive(granted()), None);
    assert_eq!(call.phase(), Phase::Ready);
    assert!(call.start().is_some());
    assert!(call.arrive(granted()).is_some());
}

#[test]
fn cancelling_a_call_in_flight_lets_go_of_it() {
    let mut call = Call::vote(&away(), vote());
    assert!(call.start().is_some());
    assert!(call.cancel());
    assert_eq!(call.phase(), Phase::Cancelled);
    assert_eq!(call.arrive(granted()), None);
    assert!(!call.cancel());
    assert_eq!(call.start(), None);
    assert_eq!(call.phase(), Phase::Cancelled);
}

#[test]
fn cancelling_a_call_that_has_not_started_hands_nothing_out() {
    let mut call = Call::vote(&here(), vote());
    assert!(!call.cancel());
    assert_eq!(call.phase(), Phase::Cancelled);
    assert_eq!(call.start(), None);
    assert_eq!(call.arrive(granted()), None);
}

#[test]
fn cancelling_a_settled_call_changes_nothing() {
    let mut call = Call::vote(&away(), vote());
    assert!(call.start().is_some());
    let late: Arrival<VoteResponse, RaftVoteResponse, ()> =
        Arrival::FromPeer(Reply::Failed(Fault { timed_out: true, detail: String::from("late") }));
    assert_eq!(
        call.arrive(late),
        Some(Completion {
            outcome: Err(ProtocolError::Timeout),
            log: Some(LogEntry {
                peer: 2,
                rpc: raft_transport::route::RpcKind::Vote,
                incident: Incident::TimedOut,
                detail: String::from("late"),
            }),
        })
    );
    assert!(!call.cancel());
    assert_eq!(call.phase(), Phase::Settled);
}

#[test]
fn an_engine_reply_settles_a_local_call() {
    let mut call = Call::vote(&here(), vote());
    assert_eq!(call.start(), Some(Outbound::Deliver { message: vote() }));
    let response = VoteResponse { term: 5, vote_granted: false, is_candidate_unknown: false };
    let arrival: Arrival<VoteResponse, RaftVoteResponse, ()> =
        Arrival::FromEngine(EngineReply::Answered(Ok(response)));
    assert_eq!(call.arrive(arrival), Some(Completion { outcome: Ok(response), log: None }));
}
