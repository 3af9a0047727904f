use raft_transport::entities::{
    RaftAppendEntriesRequest, RaftAppendEntriesResponse, RaftConflict, RaftInstallSnapshotRequest,
    RaftInstallSnapshotResponse, RaftVoteRequest, RaftVoteResponse,
};
use raft_transport::messages::{
    AppendEntriesRequest, AppendEntriesResponse, ConflictOpt, InstallSnapshotRequest,
    InstallSnapshotResponse, VoteRequest, VoteResponse,
};

fn entries_request() -> AppendEntriesRequest<(u64, String)> {
    AppendEntriesRequest {
        target: 3,
        term: 9,
        leader_id: 1,
        prev_log_index: 77,
        prev_log_term: 8,
        entries: vec![(78, String::from("set x")), (79, String::from("del y"))],
        leader_commit: 70,
    }
}

fn snapshot_request() -> InstallSnapshotRequest {
    InstallSnapshotRequest {
        target: 3,
        term: 9,
        leader_id: 1,
        last_included_index: 60,
        last_included_term: 7,
        offset: 1024,
        data: vec![0, 255, 16],
        done: true,
    }
}

#[test]
fn vote_request_on_the_wire() {
    let rpc = VoteRequest { target: 2, term: 5, candidate_id: 3, last_log_index: 10, last_log_term: 4 };
    let wire: RaftVoteRequest = rpc.into();
    assert_eq!(
        wire,
        RaftVoteRequest { term: 5, candidate_id: 3, last_log_index: 10, last_log_term: 4 }
    );
}

#[test]
fn vote_request_round_trip() {
    let rpc = VoteRequest {
        target: u64::MAX,
        term: u64::MAX - 1,
        candidate_id: 0,
        last_log_index: 1,
        last_log_term: u64::MAX,
    };
    assert_eq!(RaftVoteRequest::from(rpc).addressed_to(rpc.target), rpc);
    assert_eq!(RaftVoteRequest::from(rpc).addressed_to(8), VoteRequest { target: 8, ..rpc });
}

#[test]
fn vote_response_round_trip() {
    for (vote_granted, is_candidate_unknown) in
        [(false, false), (false, true), (true, false), (true, true)]
    {
        let response = VoteResponse { term: 5, vote_granted, is_candidate_unknown };
        let wire = RaftVoteResponse::from(response);
        assert_eq!(wire, RaftVoteResponse { term: 5, vote_granted, is_candidate_unknown });
        assert_eq!(VoteResponse::from(wire), response);
    }
}

#[test]
fn append_entries_request_on_the_wire() {
    let wire = RaftAppendEntriesRequest::from(entries_request());
    assert_eq!(
        wire,
        RaftAppendEntriesRequest {
            term: 9,
            leader_id: 1,
            prev_log_index: 77,
            prev_log_term: 8,
            entries: vec![(78, String::from("set x")), (79, String::from("del y"))],
            leader_commit: 70,
        }
    );
}

#[test]
fn append_entries_request_round_trip() {
    let back = RaftAppendEntriesRequest::from(entries_request()).addressed_to(3);
    assert_eq!(back, entries_request());
    let empty: AppendEntriesRequest<u8> = AppendEntriesRequest {
        target: 1,
        term: 2,
        leader_id: 1,
        prev_log_index: 0,
        prev_log_term: 0,
        entries: Vec::new(),
        leader_commit: 0,
    };
    let back = RaftAppendEntriesRequest::from(empty).addressed_to(1);
    assert_eq!(back.entries, Vec::<u8>::new());
    assert_eq!((back.target, back.term, back.leader_id), (1, 2, 1));
}

#[test]
fn append_entries_response_round_trip() {
    let plain = AppendEntriesResponse { term: 9, success: true, conflict_opt: None };
    let wire = RaftAppendEntriesResponse::from(plain);
    assert_eq!(wire, RaftAppendEntriesResponse { term: 9, success: true, conflict: None });
    assert_eq!(AppendEntriesResponse::from(wire), plain);

    let hinted = AppendEntriesResponse {
        term: 9,
        success: false,
        conflict_opt: Some(ConflictOpt { term: 4, index: 33 }),
    };
    let wire = RaftAppendEntriesResponse::from(hinted);
    assert_eq!(
        wire,
        RaftAppendEntriesResponse {
            term: 9,
            success: false,
            conflict: Some(RaftConflict { term: 4, index: 33 }),
        }
    );
    assert_eq!(AppendEntriesResponse::from(wire), hinted);
    assert_eq!(
        ConflictOpt::from(RaftConflict::from(ConflictOpt { term: 4, index: 33 })),
        ConflictOpt { term: 4, index: 33 }
    );
}

#[test]
fn install_snapshot_request_round_trip() {
    let wire = RaftInstallSnapshotRequest::from(snapshot_request());
    assert_eq!(
        wire,
        RaftInstallSnapshotRequest {
            term: 9,
            leader_id: 1,
            last_included_index: 60,
            last_included_term: 7,
            offset: 1024,
            data: vec![0, 255, 16],
            done: true,
        }
    );
    assert_eq!(wire.addressed_to(3), snapshot_request());
}

#[test]
fn install_snapshot_response_round_trip() {
    let response = InstallSnapshotResponse { term: 12 };
    let wire = RaftInstallSnapshotResponse::from(response);
    assert_eq!(wire, RaftInstallSnapshotResponse { term: 12 });
    assert_eq!(InstallSnapshotResponse::from(wire), response);
}
