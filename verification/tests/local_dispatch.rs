use raft_transport::entities::{RaftAppendEntriesRequest, RaftVoteRequest};
use raft_transport::error::{FailureDetail, Incident, LogEntry, ProtocolError, Severity};
use raft_transport::messages::{
    AppendEntriesRequest, AppendEntriesResponse, InstallSnapshotRequest, VoteRequest, VoteResponse,
};
use raft_transport::proximity::{
    Completion, EngineReply, LocalNode, NodeProximity, Outbound, RaftProtocolBehavior,
};
use raft_transport::route::RpcKind;

fn heartbeat() -> AppendEntriesRequest<u32> {
    AppendEntriesRequest {
        target: 1,
        term: 2,
        leader_id: 1,
        prev_log_index: 0,
        prev_log_term: 0,
        entries: Vec::new(),
        leader_commit: 0,
    }
}

#[test]
fn local_append_entries_is_delivered_as_it_is() {
    let node = LocalNode::new(1);
    assert_eq!(node.id(), 1);
    let call = node.append_entries(heartbeat());
    assert_eq!(call, Outbound::Deliver { message: heartbeat() });
}

#[test]
fn local_response_comes_back_unmodified() {
    let node = LocalNode::new(1);
    let produced = AppendEntriesResponse { term: 2, success: true, conflict_opt: None };
    let done: Completion<AppendEntriesResponse, ()> =
        node.receive(RpcKind::AppendEntries, EngineReply::Answered(Ok(produced)));
    assert_eq!(done.outcome, Ok(produced));
    assert_eq!(done.log, None);
    assert_eq!(done.status(), 200);
}

#[test]
fn local_vote_and_snapshot_are_delivered_as_they_are() {
    let node = LocalNode::new(1);
    let vote = VoteRequest { target: 1, term: 5, candidate_id: 3, last_log_index: 10, last_log_term: 4 };
    assert_eq!(node.vote(vote), Outbound::Deliver { message: vote });
    let chunk = InstallSnapshotRequest {
        target: 1,
        term: 5,
        leader_id: 3,
        last_included_index: 9,
        last_included_term: 4,
        offset: 0,
        data: vec![7, 7],
        done: true,
    };
    let same = InstallSnapshotRequest {
        target: 1,
        term: 5,
        leader_id: 3,
        last_included_index: 9,
        last_included_term: 4,
        offset: 0,
        data: vec![7, 7],
        done: true,
    };
    assert_eq!(node.install_snapshot(chunk), Outbound::Deliver { message: same });
}

#[test]
fn submit_to_raft_hands_the_message_over() {
    let node = LocalNode::new(1);
    let call: Outbound<AppendEntriesRequest<u32>, RaftAppendEntriesRequest<u32>> =
        node.submit_to_raft(heartbeat());
    assert_eq!(call, Outbound::Deliver { message: heartbeat() });
}

#[test]
fn engine_error_is_passed_through_without_a_log_entry() {
    let node = LocalNode::new(1);
    let done: Completion<VoteResponse, &str> =
        node.receive(RpcKind::Vote, EngineReply::Answered(Err("not leader")));
    assert_eq!(done.outcome, Err(ProtocolError::Engine("not leader")));
    assert_eq!(done.log, None);
    assert_eq!(done.status(), 500);
}

#[test]
fn inbox_failure_is_transport_failure() {
    let node = LocalNode::new(1);
    let done: Completion<VoteResponse, ()> =
        node.receive(RpcKind::Vote, EngineReply::InboxFailed(String::from("Mailbox has closed")));
    assert_eq!(
        done.outcome,
        Err(ProtocolError::TransportFailure(FailureDetail::Inbox(String::from(
            "Mailbox has closed"
        ))))
    );
    let entry = LogEntry {
        peer: 1,
        rpc: RpcKind::Vote,
        incident: Incident::InboxFailed,
        detail: String::from("Mailbox has closed"),
    };
    assert_eq!(entry.severity(), Severity::Error);
    assert_eq!(entry.message(), "Raft RPC failed in actor send.");
    assert_eq!(done.log, Some(entry));
    assert_eq!(done.status(), 500);
}

#[test]
fn local_proximity_dispatches_as_its_node_does() {
    let proximity = NodeProximity::Local(LocalNode::new(1));
    assert_eq!(proximity.id(), 1);
    let vote = VoteRequest { target: 1, term: 5, candidate_id: 3, last_log_index: 10, last_log_term: 4 };
    let call: Outbound<VoteRequest, RaftVoteRequest> = proximity.vote(vote);
    assert_eq!(call, Outbound::Deliver { message: vote });
    assert_eq!(proximity.append_entries(heartbeat()), Outbound::Deliver { message: heartbeat() });
}

#[test]
fn incidents_and_their_errors() {
    assert_eq!(ProtocolError::<()>::Timeout.incident(), Some(Incident::TimedOut));
    assert_eq!(ProtocolError::<()>::SerializationFailure.incident(), Some(Incident::Undecodable));
    assert_eq!(
        ProtocolError::<()>::TransportFailure(FailureDetail::Status(502)).incident(),
        Some(Incident::Refused(502))
    );
    assert_eq!(
        ProtocolError::<()>::TransportFailure(FailureDetail::Network(String::new())).incident(),
        Some(Incident::RemoteFailed)
    );
    assert_eq!(
        ProtocolError::<()>::TransportFailure(FailureDetail::Inbox(String::new())).incident(),
        Some(Incident::InboxFailed)
    );
    assert_eq!(ProtocolError::Engine(17u8).incident(), None);
    assert_eq!(Incident::TimedOut.severity(), Severity::Warn);
    assert_eq!(Incident::Undecodable.severity(), Severity::Error);
    assert_eq!(Incident::Refused(400).severity(), Severity::Error);
    assert_eq!(Incident::RemoteFailed.severity(), Severity::Error);
    assert_eq!(Incident::InboxFailed.severity(), Severity::Error);
}
