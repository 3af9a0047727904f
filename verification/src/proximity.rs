//! Where a peer is, and how each of the three calls reaches it.
//!
//! A member of the cluster is either in this process, next to its consensus
//! engine, or behind an HTTP endpoint. Either way a call is made in two steps
//! with the runtime in between: first this module says what is to be done (an
//! `Outbound`), then the runtime does it and comes back with what happened,
//! and this module says what the caller is told (a `Completion`).

use vstd::prelude::*;
use vstd::std_specs::convert::FromSpec;
use crate::entities::{RaftAppendEntriesRequest, RaftInstallSnapshotRequest, RaftVoteRequest};
use crate::error::{
    classified, classify, lines, logged, FailureDetail, Incident, LogEntry, LogLine,
    ProtocolError, Severity,
};
use crate::fault::Fault;
use crate::messages::{AppendEntriesRequest, InstallSnapshotRequest, NodeId, VoteRequest};
use crate::route::{route_spec, route_to, scope_of, scope_spec, RpcKind};

verus! {

/// A member as the contracts see it.
pub enum Proximity {
    /// In this process.
    Local { id: NodeId },
    /// Behind the HTTP endpoint at `address`.
    Remote { id: NodeId, address: Seq<char> },
}

impl Proximity {
    /// The member's identifier.
    pub open spec fn id(self) -> NodeId {
        match self {
            Proximity::Local { id } => id,
            Proximity::Remote { id, .. } => id,
        }
    }

    /// The address that a call of `rpc` to this member is posted to; `None`
    /// for a member in this process, which is reached without the network.
    pub open spec fn route(self, rpc: RpcKind) -> Option<Seq<char>> {
        match self {
            Proximity::Local { .. } => None,
            Proximity::Remote { address, .. } => Some(
                route_spec(scope_spec(address), rpc.path_spec()),
            ),
        }
    }
}

/// What the runtime is to do for one call: exactly one of the two.
#[derive(Debug, PartialEq)]
pub enum Outbound<M, W> {
    /// Hand `message` to the consensus engine of this process.
    Deliver { message: M },
    /// Post `body` to `route`.
    Post { route: String, body: W },
}

/// `call` is the one step that takes `message` to a member reached by `route`:
/// the message itself where the member is in this process, its wire form
/// `body` posted to the route where it is not.
pub open spec fn carries<M, W>(
    call: Outbound<M, W>,
    route: Option<Seq<char>>,
    message: M,
    body: W,
) -> bool {
    match route {
        None => call == (Outbound::<M, W>::Deliver { message }),
        Some(address) => call matches Outbound::Post { route: posted_to, body: posted }
            && posted_to@ == address && posted == body,
    }
}

/// What came back from the consensus engine of this process.
#[derive(Debug, PartialEq)]
pub enum EngineReply<R, E> {
    /// The engine took the message and gave this answer.
    Answered(Result<R, E>),
    /// The engine's inbox failed before an answer came through it.
    InboxFailed(String),
}

impl<R, E> EngineReply<R, E> {
    /// What the caller is told: the engine's answer as it is, or a transport
    /// failure where the inbox failed.
    pub open spec fn outcome(self) -> Result<R, ProtocolError<E>> {
        match self {
            EngineReply::Answered(Ok(response)) => Ok(response),
            EngineReply::Answered(Err(error)) => Err(ProtocolError::Engine(error)),
            EngineReply::InboxFailed(words) => Err(
                ProtocolError::TransportFailure(FailureDetail::Inbox(words)),
            ),
        }
    }

    /// What the inbox said of its failure.
    pub open spec fn words(self) -> Seq<char> {
        match self {
            EngineReply::Answered(_) => Seq::empty(),
            EngineReply::InboxFailed(words) => words@,
        }
    }
}

/// The body of a response, as far as it could be read and decoded.
#[derive(Debug, PartialEq)]
pub enum Body<W> {
    /// It was read in full and decoded to this.
    Decoded(W),
    /// It was read in full and did not decode as the expected wire type; the
    /// decoder's words.
    Malformed(String),
    /// It could not be read in full.
    Unread(Fault),
}

/// What came back from a peer's endpoint, as the HTTP client reports it.
#[derive(Debug, PartialEq)]
pub enum Reply<W> {
    /// A response arrived with this status and this body.
    Answered { status: u16, body: Body<W> },
    /// No response arrived.
    Failed(Fault),
}

/// What came back for a call, from wherever the member is.
#[derive(Debug, PartialEq)]
pub enum Arrival<R, W, E> {
    FromEngine(EngineReply<R, E>),
    FromPeer(Reply<W>),
}

/// The end of a call: what the caller is told, and what is logged.
#[derive(Debug, PartialEq)]
pub struct Completion<R, E> {
    pub outcome: Result<R, ProtocolError<E>>,
    pub log: Option<LogEntry>,
}

impl<R, E> Completion<R, E> {
    /// The status with which a member answers the peer that made the call:
    /// 200 with the response, 500 where there is none.
    pub open spec fn status_spec(self) -> u16 {
        if self.outcome is Ok {
            200
        } else {
            500
        }
    }

    /// The status with which a member answers the peer that made the call.
    pub fn status(&self) -> (status: u16)
        ensures
            status == self.status_spec(),
            is_success_spec(status) <==> self.outcome is Ok,
    {
        match &self.outcome {
            Ok(_) => 200,
            Err(_) => 500,
        }
    }
}

/// A status from 200 to 299.
pub open spec fn is_success_spec(status: u16) -> bool {
    200 <= status <= 299
}

/// Whether a response with this status is taken as an answer to the call.
pub fn is_success(status: u16) -> (success: bool)
    ensures
        success == is_success_spec(status),
{
    200 <= status && status <= 299
}

impl<W> Reply<W> {
    /// What a reply amounts to: the decoded body of a response with a status
    /// from 200 to 299, or the error that any other reply stands for.
    ///
    /// A response with a status outside 200 to 299 is a transport failure,
    /// whatever its body. A body that did not decode is a serialization
    /// failure. A fault of the client, before a response or while it read the
    /// body, is a timeout where a deadline ran out and a transport failure
    /// where not.
    pub open spec fn verdict<E>(self) -> Result<W, ProtocolError<E>> {
        match self {
            Reply::Answered { status, body } => if !is_success_spec(status) {
                Err(ProtocolError::TransportFailure(FailureDetail::Status(status)))
            } else {
                match body {
                    Body::Decoded(wire) => Ok(wire),
                    Body::Malformed(_) => Err(ProtocolError::SerializationFailure),
                    Body::Unread(fault) => Err(classified(fault)),
                }
            },
            Reply::Failed(fault) => Err(classified(fault)),
        }
    }

    /// What the party that met the failure said of it: the client of a fault,
    /// the decoder of a body that did not decode. Nothing is said of a status.
    pub open spec fn words(self) -> Seq<char> {
        match self {
            Reply::Answered { status, body } => if !is_success_spec(status) {
                Seq::empty()
            } else {
                match body {
                    Body::Decoded(_) => Seq::empty(),
                    Body::Malformed(words) => words@,
                    Body::Unread(fault) => fault.detail@,
                }
            },
            Reply::Failed(fault) => fault.detail@,
        }
    }

    /// The fault that the client met on a call that the peer did not refuse:
    /// before any response, or while it read the body of a response with a
    /// status from 200 to 299.
    pub open spec fn fault(self) -> Option<Fault> {
        match self {
            Reply::Answered { status, body: Body::Unread(fault) } => if is_success_spec(status) {
                Some(fault)
            } else {
                None
            },
            Reply::Answered { .. } => None,
            Reply::Failed(fault) => Some(fault),
        }
    }
}

/// `done` is the end of a call of `rpc` to the member `peer` for which
/// `arrival` came back.
///
/// A reply of the engine goes to the caller as it is. A reply of a peer gives
/// the engine's form of the answer it carries, or the error it stands for.
/// Either way a line is logged exactly for a failure of this layer.
pub open spec fn settles<R: From<W>, W, E>(
    done: Completion<R, E>,
    peer: NodeId,
    rpc: RpcKind,
    arrival: Arrival<R, W, E>,
) -> bool {
    match arrival {
        Arrival::FromEngine(reply) => {
            &&& done.outcome == reply.outcome()
            &&& lines(done.log) == logged(done.outcome, peer, rpc, reply.words())
        },
        Arrival::FromPeer(reply) => {
            &&& match reply.verdict::<E>() {
                Ok(wire) => done.outcome matches Ok(response) && (R::obeys_from_spec()
                    ==> response == R::from_spec(wire)),
                Err(error) => done.outcome == Err::<R, ProtocolError<E>>(error),
            }
            &&& lines(done.log) == logged(done.outcome, peer, rpc, reply.words())
        },
    }
}

/// The three calls, made the same way whether the member is here or away.
pub trait RaftProtocolBehavior: View<V = Proximity> {
    /// Replicates log entries, or sends a heartbeat.
    fn append_entries<D>(&self, rpc: AppendEntriesRequest<D>) -> (call: Outbound<
        AppendEntriesRequest<D>,
        RaftAppendEntriesRequest<D>,
    >)
        ensures
            carries(
                call,
                self@.route(RpcKind::AppendEntries),
                rpc,
                RaftAppendEntriesRequest::of(rpc),
            ),
    ;

    /// Sends one chunk of a snapshot.
    fn install_snapshot(&self, rpc: InstallSnapshotRequest) -> (call: Outbound<
        InstallSnapshotRequest,
        RaftInstallSnapshotRequest,
    >)
        ensures
            carries(
                call,
                self@.route(RpcKind::InstallSnapshot),
                rpc,
                RaftInstallSnapshotRequest::of(rpc),
            ),
    ;

    /// Asks for a vote.
    fn vote(&self, rpc: VoteRequest) -> (call: Outbound<VoteRequest, RaftVoteRequest>)
        ensures
            carries(call, self@.route(RpcKind::Vote), rpc, RaftVoteRequest::of(rpc)),
    ;
}

/// A member in this process.
#[derive(Clone, Copy, Debug, PartialEq, Eq)]
pub struct LocalNode {
    id: NodeId,
}

impl View for LocalNode {
    type V = Proximity;

    closed spec fn view(&self) -> Proximity {
        Proximity::Local { id: self.id }
    }
}

impl LocalNode {
    pub fn new(id: NodeId) -> (node: LocalNode)
        ensures
            node@ == (Proximity::Local { id }),
    {
        LocalNode { id }
    }

    pub fn id(&self) -> (id: NodeId)
        ensures
            id == self@.id(),
    {
        self.id
    }

    /// The call that hands `rpc` to the consensus engine, as it is.
    pub fn submit_to_raft<C, W>(&self, rpc: C) -> (call: Outbound<C, W>)
        ensures
            call == (Outbound::<C, W>::Deliver { message: rpc }),
    {
        Outbound::Deliver { message: rpc }
    }

    /// What the caller is told once the engine's inbox has answered or failed.
    ///
    /// The engine's answer goes to the caller as it is, a response or an error
    /// of the engine's own, and nothing is logged. A failure of the inbox is a
    /// transport failure, logged once with the inbox's words.
    pub fn receive<R, E>(&self, rpc: RpcKind, reply: EngineReply<R, E>) -> (done: Completion<R, E>)
        ensures
            done.outcome == reply.outcome(),
            lines(done.log) == logged(done.outcome, self@.id(), rpc, reply.words()),
    {
        match reply {
            EngineReply::Answered(Ok(response)) => Completion { outcome: Ok(response), log: None },
            EngineReply::Answered(Err(error)) => Completion {
                outcome: Err(ProtocolError::Engine(error)),
                log: None,
            },
            EngineReply::InboxFailed(words) => {
                let detail = words.clone();
                Completion {
                    outcome: Err(ProtocolError::TransportFailure(FailureDetail::Inbox(words))),
                    log: Some(
                        LogEntry { peer: self.id, rpc, incident: Incident::InboxFailed, detail },
                    ),
                }
            },
        }
    }
}

impl RaftProtocolBehavior for LocalNode {
    fn append_entries<D>(&self, rpc: AppendEntriesRequest<D>) -> (call: Outbound<
        AppendEntriesRequest<D>,
        RaftAppendEntriesRequest<D>,
    >) {
        self.submit_to_raft(rpc)
    }

    fn install_snapshot(&self, rpc: InstallSnapshotRequest) -> (call: Outbound<
        InstallSnapshotRequest,
        RaftInstallSnapshotRequest,
    >) {
        self.submit_to_raft(rpc)
    }

    fn vote(&self, rpc: VoteRequest) -> (call: Outbound<VoteRequest, RaftVoteRequest>) {
        self.submit_to_raft(rpc)
    }
}

/// A member behind an HTTP endpoint.
#[derive(Clone, Debug, PartialEq, Eq)]
pub struct RemoteNode {
    id: NodeId,
    address: String,
}

impl View for RemoteNode {
    type V = Proximity;

    closed spec fn view(&self) -> Proximity {
        Proximity::Remote { id: self.id, address: self.address@ }
    }
}

impl RemoteNode {
    /// The member `id` that listens at `address`, such as `http://10.0.0.2:8080`.
    pub fn new(id: NodeId, address: String) -> (node: RemoteNode)
        ensures
            node@ == (Proximity::Remote { id, address: address@ }),
    {
        RemoteNode { id, address }
    }

    pub fn id(&self) -> (id: NodeId)
        ensures
            id == self@.id(),
    {
        self.id
    }

    pub fn address(&self) -> (address: &str)
        ensures
            self@ == (Proximity::Remote { id: self@.id(), address: address@ }),
    {
        self.address.as_str()
    }

    /// The address of this member's cluster endpoints.
    pub fn scope(&self) -> (scope: String)
        ensures
            self@ matches Proximity::Remote { address, .. } && scope@ == scope_spec(address),
    {
        scope_of(self.address.as_str())
    }

    /// The call that posts the wire form of `command` to this member's
    /// endpoint for `rpc`.
    pub fn send_raft_command<M, M0: From<M>>(&self, command: M, rpc: RpcKind) -> (call: Outbound<
        M,
        M0,
    >)
        ensures
            call matches Outbound::Post { route, body } && Some(route@) == self@.route(rpc) && (
            M0::obeys_from_spec() ==> body == M0::from_spec(command)),
    {
        let scope = self.scope();
        let route = route_to(scope.as_str(), rpc.path());
        let body: M0 = command.into();
        Outbound::Post { route, body }
    }

    /// The error that a fault of the HTTP client stands for, and the one log
    /// entry that goes with it.
    pub fn log_raft_protocol_error<E>(&self, rpc: RpcKind, fault: Fault) -> (report: (
        ProtocolError<E>,
        LogEntry,
    ))
        ensures
            report.0 == classified::<E>(fault),
            Some(report.1@) == logged::<(), E>(Err(report.0), self@.id(), rpc, fault.detail@),
    {
        report_fault(self.id, rpc, fault)
    }

    /// What the caller is told once the HTTP client has come back.
    ///
    /// A response with a status from 200 to 299 whose body decoded gives the
    /// engine's form of that body, and nothing is logged. Every other reply
    /// gives the error it stands for, logged once.
    pub fn receive<W, R: From<W>, E>(&self, rpc: RpcKind, reply: Reply<W>) -> (done: Completion<
        R,
        E,
    >)
        ensures
            match reply.verdict::<E>() {
                Ok(wire) => done.outcome matches Ok(response) && (R::obeys_from_spec()
                    ==> response == R::from_spec(wire)),
                Err(error) => done.outcome == Err::<R, ProtocolError<E>>(error),
            },
            lines(done.log) == logged(done.outcome, self@.id(), rpc, reply.words()),
    {
        peer_replied(self.id, rpc, reply)
    }
}

fn report_fault<E>(peer: NodeId, rpc: RpcKind, fault: Fault) -> (report: (ProtocolError<E>, LogEntry))
    ensures
        report.0 == classified::<E>(fault),
        Some(report.1@) == logged::<(), E>(Err(report.0), peer, rpc, fault.detail@),
{
    if fault.timed_out {
        (
            ProtocolError::Timeout,
            LogEntry { peer, rpc, incident: Incident::TimedOut, detail: fault.detail },
        )
    } else {
        let detail = fault.detail.clone();
        (classify(fault), LogEntry { peer, rpc, incident: Incident::RemoteFailed, detail })
    }
}

fn peer_replied<W, R: From<W>, E>(peer: NodeId, rpc: RpcKind, reply: Reply<W>) -> (done: Completion<
    R,
    E,
>)
    ensures
        match reply.verdict::<E>() {
            Ok(wire) => done.outcome matches Ok(response) && (R::obeys_from_spec() ==> response
                == R::from_spec(wire)),
            Err(error) => done.outcome == Err::<R, ProtocolError<E>>(error),
        },
        lines(done.log) == logged(done.outcome, peer, rpc, reply.words()),
{
    match reply {
        Reply::Answered { status, body } => {
            if !is_success(status) {
                Completion {
                    outcome: Err(ProtocolError::TransportFailure(FailureDetail::Status(status))),
                    log: Some(
                        LogEntry {
                            peer,
                            rpc,
                            incident: Incident::Refused(status),
                            detail: String::new(),
                        },
                    ),
                }
            } else {
                match body {
                    Body::Decoded(wire) => Completion { outcome: Ok(R::from(wire)), log: None },
                    Body::Malformed(words) => Completion {
                        outcome: Err(ProtocolError::SerializationFailure),
                        log: Some(
                            LogEntry { peer, rpc, incident: Incident::Undecodable, detail: words },
                        ),
                    },
                    Body::Unread(fault) => {
                        let (error, entry) = report_fault(peer, rpc, fault);
                        Completion { outcome: Err(error), log: Some(entry) }
                    },
                }
            }
        },
        Reply::Failed(fault) => {
            let (error, entry) = report_fault(peer, rpc, fault);
            Completion { outcome: Err(error), log: Some(entry) }
        },
    }
}

impl RaftProtocolBehavior for RemoteNode {
    fn append_entries<D>(&self, rpc: AppendEntriesRequest<D>) -> (call: Outbound<
        AppendEntriesRequest<D>,
        RaftAppendEntriesRequest<D>,
    >) {
        self.send_raft_command(rpc, RpcKind::AppendEntries)
    }

    fn install_snapshot(&self, rpc: InstallSnapshotRequest) -> (call: Outbound<
        InstallSnapshotRequest,
        RaftInstallSnapshotRequest,
    >) {
        self.send_raft_command(rpc, RpcKind::InstallSnapshot)
    }

    fn vote(&self, rpc: VoteRequest) -> (call: Outbound<VoteRequest, RaftVoteRequest>) {
        self.send_raft_command(rpc, RpcKind::Vote)
    }
}

/// A member of the cluster, here or away.
#[derive(Clone, Debug, PartialEq, Eq)]
pub enum NodeProximity {
    Local(LocalNode),
    Remote(RemoteNode),
}

impl View for NodeProximity {
    type V = Proximity;

    open spec fn view(&self) -> Proximity {
        match self {
            NodeProximity::Local(node) => node@,
            NodeProximity::Remote(node) => node@,
        }
    }
}

impl NodeProximity {
    pub fn id(&self) -> (id: NodeId)
        ensures
            id == self@.id(),
    {
        match self {
            NodeProximity::Local(node) => node.id(),
            NodeProximity::Remote(node) => node.id(),
        }
    }

    /// What the caller is told once the call has come back: what
    /// `LocalNode::receive` says of a reply of the engine, and what
    /// `RemoteNode::receive` says of a reply of a peer.
    pub fn receive<R: From<W>, W, E>(&self, rpc: RpcKind, arrival: Arrival<R, W, E>) -> (done:
        Completion<R, E>)
        ensures
            settles(done, self@.id(), rpc, arrival),
    {
        settle(self.id(), rpc, arrival)
    }
}

/// What the caller of `rpc` to the member `peer` is told once `arrival` has
/// come back for the call.
pub fn settle<R: From<W>, W, E>(peer: NodeId, rpc: RpcKind, arrival: Arrival<R, W, E>) -> (done:
    Completion<R, E>)
    ensures
        settles(done, peer, rpc, arrival),
{
    match arrival {
        Arrival::FromEngine(reply) => LocalNode::new(peer).receive(rpc, reply),
        Arrival::FromPeer(reply) => peer_replied(peer, rpc, reply),
    }
}

impl RaftProtocolBehavior for NodeProximity {
    fn append_entries<D>(&self, rpc: AppendEntriesRequest<D>) -> (call: Outbound<
        AppendEntriesRequest<D>,
        RaftAppendEntriesRequest<D>,
    >) {
        match self {
            NodeProximity::Local(node) => node.append_entries(rpc),
            NodeProximity::Remote(node) => node.append_entries(rpc),
        }
    }

    fn install_snapshot(&self, rpc: InstallSnapshotRequest) -> (call: Outbound<
        InstallSnapshotRequest,
        RaftInstallSnapshotRequest,
    >) {
        match self {
            NodeProximity::Local(node) => node.install_snapshot(rpc),
            NodeProximity::Remote(node) => node.install_snapshot(rpc),
        }
    }

    fn vote(&self, rpc: VoteRequest) -> (call: Outbound<VoteRequest, RaftVoteRequest>) {
        match self {
            NodeProximity::Local(node) => node.vote(rpc),
            NodeProximity::Remote(node) => node.vote(rpc),
        }
    }
}

/// A deadline that ran out, before a response came or while its body was
/// read, is told to the caller as `Timeout`, and one entry is logged for it,
/// a warning, with the client's words.
pub proof fn timeout_surfaces<W, E>(reply: Reply<W>, peer: NodeId, rpc: RpcKind)
    requires
        reply.fault() matches Some(fault) && fault.timed_out,
    ensures
        reply.verdict::<E>() == Err::<W, ProtocolError<E>>(ProtocolError::Timeout),
        logged(reply.verdict::<E>(), peer, rpc, reply.words()) == Some(
            LogLine { peer, rpc, incident: Incident::TimedOut, detail: reply.fault()->0.detail@ },
        ),
        Incident::TimedOut.severity_spec() == Severity::Warn,
{
}

/// A body that did not decode, on a response with a status from 200 to 299,
/// is told to the caller as `SerializationFailure`, and one entry is logged
/// for it, an error, with the decoder's words.
pub proof fn malformed_body_surfaces<W, E>(
    status: u16,
    words: String,
    peer: NodeId,
    rpc: RpcKind,
)
    requires
        is_success_spec(status),
    ensures
        ({
            let reply = Reply::<W>::Answered { status, body: Body::Malformed(words) };
            &&& reply.verdict::<E>() == Err::<W, ProtocolError<E>>(
                ProtocolError::SerializationFailure,
            )
            &&& logged(reply.verdict::<E>(), peer, rpc, reply.words()) == Some(
                LogLine { peer, rpc, incident: Incident::Undecodable, detail: words@ },
            )
        }),
        Incident::Undecodable.severity_spec() == Severity::Error,
{
}

/// Whatever a reply is, the caller is told a response or one of the three
/// failures of this layer, never an error of an engine; and a line is logged
/// exactly where it is a failure.
pub proof fn every_reply_has_one_outcome<W, E>(reply: Reply<W>, peer: NodeId, rpc: RpcKind)
    ensures
        reply.verdict::<E>() matches Err(error) ==> error is Timeout || error
            is SerializationFailure || error is TransportFailure,
        logged(reply.verdict::<E>(), peer, rpc, reply.words()) is Some <==> reply.verdict::<E>()
            is Err,
{
}

/// A member that has no response for a call answers with a status that the
/// calling peer takes as a transport failure, whatever the body.
pub proof fn refusal_is_transport_failure<R, W, E>(done: Completion<R, E>, body: Body<W>)
    requires
        done.outcome is Err,
    ensures
        (Reply::Answered { status: done.status_spec(), body }).verdict::<E>() == Err::<
            W,
            ProtocolError<E>,
        >(ProtocolError::TransportFailure(FailureDetail::Status(done.status_spec()))),
{
}

} // verus!
