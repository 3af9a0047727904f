use raft_transport::dispatch::Phase;
use raft_transport::entities::RaftVoteRequest;
use raft_transport::messages::{AppendEntriesRequest, InstallSnapshotRequest, VoteRequest};
use raft_transport::proximity::{LocalNode, NodeProximity, Outbound, RemoteNode};
use raft_transport::topology::Topology;

fn here() -> NodeProximity {
    NodeProximity::Local(LocalNode::new(1))
}

fn away(id: u64, address: &str) -> NodeProximity {
    NodeProximity::Remote(RemoteNode::new(id, String::from(address)))
}

#[test]
fn a_new_topology_knows_nobody() {
    let topology = Topology::new();
    assert_eq!(topology.len(), 0);
    assert_eq!(topology.proximity(1), None);
}

#[test]
fn members_join_once() {
    let mut topology = Topology::new();
    assert!(topology.join(here()));
    assert!(topology.join(away(2, "http://10.0.0.2:8080")));
    assert!(topology.join(away(3, "http://10.0.0.3:8080")));
    assert_eq!(topology.len(), 3);
    assert_eq!(topology.proximity(1), Some(&here()));
    assert_eq!(topology.proximity(2), Some(&away(2, "http://10.0.0.2:8080")));
    assert_eq!(topology.proximity(4), None);
}

#[test]
fn a_member_that_is_known_stays_as_it_is() {
    let mut topology = Topology::new();
    assert!(topology.join(away(2, "http://10.0.0.2:8080")));
    assert!(!topology.join(away(2, "http://10.9.9.9:1")));
    assert!(!topology.join(NodeProximity::Local(LocalNode::new(2))));
    assert_eq!(topology.len(), 1);
    assert_eq!(topology.proximity(2), Some(&away(2, "http://10.0.0.2:8080")));
}

#[test]
fn a_member_that_leaves_is_gone() {
    let mut topology = Topology::new();
    assert!(topology.join(here()));
    assert!(topology.join(away(2, "http://10.0.0.2:8080")));
    assert_eq!(topology.leave(2), Some(away(2, "http://10.0.0.2:8080")));
    assert_eq!(topology.leave(2), None);
    assert_eq!(topology.proximity(2), None);
    assert_eq!(topology.len(), 1);
    assert_eq!(topology.proximity(1), Some(&here()));
}

#[test]
fn a_member_that_left_can_join_again() {
    let mut topology = Topology::new();
    assert!(topology.join(away(2, "http://10.0.0.2:8080")));
    assert_eq!(topology.leave(2), Some(away(2, "http://10.0.0.2:8080")));
    assert!(topology.join(away(2, "http://10.0.0.7:8080")));
    assert_eq!(topology.proximity(2), Some(&away(2, "http://10.0.0.7:8080")));
}

fn cluster() -> Topology {
    let mut topology = Topology::new();
    assert!(topology.join(here()));
    assert!(topology.join(away(2, "http://10.0.0.2:8080")));
    topology
}

fn vote_for(target: u64) -> VoteRequest {
    VoteRequest { target, term: 5, candidate_id: 3, last_log_index: 10, last_log_term: 4 }
}

#[test]
fn a_call_goes_to_the_member_it_is_for() {
    let topology = cluster();
    let mut away = topology.vote(vote_for(2)).unwrap();
    assert_eq!(away.phase(), Phase::Ready);
    assert_eq!(
        away.start(),
        Some(Outbound::Post {
            route: String::from("http://10.0.0.2:8080/api/cluster/vote"),
            body: RaftVoteRequest { term: 5, candidate_id: 3, last_log_index: 10, last_log_term: 4 },
        })
    );
    let mut here = topology.vote(vote_for(1)).unwrap();
    assert_eq!(here.start(), Some(Outbound::Deliver { message: vote_for(1) }));
}

#[test]
fn a_call_for_a_member_that_is_not_known_is_not_made() {
    let topology = cluster();
    assert!(topology.vote(vote_for(3)).is_none());
    let entries: AppendEntriesRequest<u8> = AppendEntriesRequest {
        target: 9,
        term: 1,
        leader_id: 1,
        prev_log_index: 0,
        prev_log_term: 0,
        entries: vec![1],
        leader_commit: 0,
    };
    assert!(topology.append_entries(entries).is_none());
    let chunk = InstallSnapshotRequest {
        target: 9,
        term: 1,
        leader_id: 1,
        last_included_index: 0,
        last_included_term: 0,
        offset: 0,
        data: Vec::new(),
        done: true,
    };
    assert!(topology.install_snapshot(chunk).is_none());
}

#[test]
fn entries_and_chunks_go_to_the_member_they_are_for() {
    let topology = cluster();
    let entries = || AppendEntriesRequest {
        target: 1,
        term: 1,
        leader_id: 1,
        prev_log_index: 0,
        prev_log_term: 0,
        entries: vec![7u8],
        leader_commit: 0,
    };
    let mut call = topology.append_entries(entries()).unwrap();
    assert_eq!(call.start(), Some(Outbound::Deliver { message: entries() }));
    let chunk = InstallSnapshotRequest {
        target: 2,
        term: 1,
        leader_id: 1,
        last_included_index: 0,
        last_included_term: 0,
        offset: 0,
        data: vec![1],
        done: false,
    };
    let mut call = topology.install_snapshot(chunk).unwrap();
    match call.start() {
        Some(Outbound::Post { route, body }) => {
            assert_eq!(route, "http://10.0.0.2:8080/api/cluster/snapshots");
            assert_eq!(body.data, vec![1]);
        }
        other => panic!("{:?}", other),
    }
}
