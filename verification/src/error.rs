//! The failures a caller can be told of, and what is logged for each.

use vstd::prelude::*;
use crate::fault::Fault;
use crate::messages::NodeId;
use crate::route::RpcKind;

verus! {

/// What is known of a transport failure.
#[derive(Debug, PartialEq, Eq)]
pub enum FailureDetail {
    /// The peer answered with a status outside 200 to 299.
    Status(u16),
    /// The network layer failed, described in the HTTP client's words.
    Network(String),
    /// The inbox of the consensus engine did not take or answer the message,
    /// described in the inbox's words.
    Inbox(String),
}

/// Why a call has no response. `E` is the consensus engine's own error.
#[derive(Debug, PartialEq, Eq)]
pub enum ProtocolError<E> {
    /// A connect or read deadline ran out.
    Timeout,
    /// The response body did not decode as the expected wire type.
    SerializationFailure,
    /// Any other failure between the caller and the peer.
    TransportFailure(FailureDetail),
    /// The consensus engine refused the call; its error is handed on as it is.
    Engine(E),
}

/// How loudly a failure is logged.
#[derive(Clone, Copy, Debug, PartialEq, Eq, Structural)]
pub enum Severity {
    Warn,
    Error,
}

/// The failures of this layer, as the log tells them apart.
#[derive(Clone, Copy, Debug, PartialEq, Eq, Structural)]
pub enum Incident {
    /// A deadline ran out.
    TimedOut,
    /// The response body did not decode.
    Undecodable,
    /// The peer answered with this status, outside 200 to 299.
    Refused(u16),
    /// The network layer failed.
    RemoteFailed,
    /// The engine's inbox failed.
    InboxFailed,
}

/// One entry for the log: which call to which peer failed, how, and what the
/// party that met the failure said of it.
#[derive(Clone, Debug, PartialEq, Eq)]
pub struct LogEntry {
    pub peer: NodeId,
    pub rpc: RpcKind,
    pub incident: Incident,
    pub detail: String,
}

/// A log entry as the contracts see it.
pub struct LogLine {
    pub peer: NodeId,
    pub rpc: RpcKind,
    pub incident: Incident,
    pub detail: Seq<char>,
}

impl View for LogEntry {
    type V = LogLine;

    open spec fn view(&self) -> LogLine {
        LogLine { peer: self.peer, rpc: self.rpc, incident: self.incident, detail: self.detail@ }
    }
}

/// What is in the log after a call: at most one line.
pub open spec fn lines(log: Option<LogEntry>) -> Option<LogLine> {
    match log {
        Some(entry) => Some(entry@),
        None => None,
    }
}

impl Incident {
    /// A deadline that ran out is a warning; every other incident is an error.
    pub open spec fn severity_spec(self) -> Severity {
        match self {
            Incident::TimedOut => Severity::Warn,
            _ => Severity::Error,
        }
    }

    pub open spec fn message_spec(self) -> Seq<char> {
        match self {
            Incident::TimedOut => "Raft RPC to remote timed out."@,
            Incident::Undecodable => "Raft RPC serialization failure."@,
            Incident::Refused(_) => "Raft RPC to remote failed"@,
            Incident::RemoteFailed => "Raft RPC to remote failed"@,
            Incident::InboxFailed => "Raft RPC failed in actor send."@,
        }
    }

    /// A deadline that ran out is a warning; every other incident is an error.
    pub fn severity(self) -> (severity: Severity)
        ensures
            severity == self.severity_spec(),
    {
        match self {
            Incident::TimedOut => Severity::Warn,
            _ => Severity::Error,
        }
    }

    /// The text of the log entry.
    pub fn message(self) -> (text: &'static str)
        ensures
            text@ == self.message_spec(),
    {
        match self {
            Incident::TimedOut => "Raft RPC to remote timed out.",
            Incident::Undecodable => "Raft RPC serialization failure.",
            Incident::Refused(_) => "Raft RPC to remote failed",
            Incident::RemoteFailed => "Raft RPC to remote failed",
            Incident::InboxFailed => "Raft RPC failed in actor send.",
        }
    }
}

impl LogEntry {
    /// The severity of this entry's incident.
    pub fn severity(&self) -> (severity: Severity)
        ensures
            severity == self@.incident.severity_spec(),
    {
        self.incident.severity()
    }

    /// The text of this entry's incident.
    pub fn message(&self) -> (text: &'static str)
        ensures
            text@ == self@.incident.message_spec(),
    {
        self.incident.message()
    }
}

/// The error that a fault of the HTTP client stands for: a deadline that ran
/// out is `Timeout`; anything else is `TransportFailure` with the client's
/// description.
pub open spec fn classified<E>(fault: Fault) -> ProtocolError<E> {
    if fault.timed_out {
        ProtocolError::Timeout
    } else {
        ProtocolError::TransportFailure(FailureDetail::Network(fault.detail))
    }
}

/// Classifies a fault of the HTTP client.
pub fn classify<E>(fault: Fault) -> (error: ProtocolError<E>)
    ensures
        error == classified::<E>(fault),
{
    if fault.timed_out {
        ProtocolError::Timeout
    } else {
        ProtocolError::TransportFailure(FailureDetail::Network(fault.detail))
    }
}

impl<E> ProtocolError<E> {
    /// The incident logged for this error. The engine's own errors are handed
    /// on without a log entry.
    pub open spec fn incident_spec(self) -> Option<Incident> {
        match self {
            ProtocolError::Timeout => Some(Incident::TimedOut),
            ProtocolError::SerializationFailure => Some(Incident::Undecodable),
            ProtocolError::TransportFailure(FailureDetail::Status(status)) => Some(
                Incident::Refused(status),
            ),
            ProtocolError::TransportFailure(FailureDetail::Network(_)) => Some(
                Incident::RemoteFailed,
            ),
            ProtocolError::TransportFailure(FailureDetail::Inbox(_)) => Some(
                Incident::InboxFailed,
            ),
            ProtocolError::Engine(_) => None,
        }
    }

    /// The incident logged for this error, if any.
    pub fn incident(&self) -> (incident: Option<Incident>)
        ensures
            incident == self.incident_spec(),
    {
        match self {
            ProtocolError::Timeout => Some(Incident::TimedOut),
            ProtocolError::SerializationFailure => Some(Incident::Undecodable),
            ProtocolError::TransportFailure(FailureDetail::Status(status)) => Some(
                Incident::Refused(*status),
            ),
            ProtocolError::TransportFailure(FailureDetail::Network(_)) => Some(
                Incident::RemoteFailed,
            ),
            ProtocolError::TransportFailure(FailureDetail::Inbox(_)) => Some(
                Incident::InboxFailed,
            ),
            ProtocolError::Engine(_) => None,
        }
    }
}

/// What is logged for the outcome of a call of `rpc` to `peer`, where the
/// party that met a failure described it as `detail`: nothing for a response,
/// nothing for an error of the engine, one line for each failure of this
/// layer.
pub open spec fn logged<R, E>(
    outcome: Result<R, ProtocolError<E>>,
    peer: NodeId,
    rpc: RpcKind,
    detail: Seq<char>,
) -> Option<LogLine> {
    match outcome {
        Ok(_) => None,
        Err(error) => match error.incident_spec() {
            Some(incident) => Some(LogLine { peer, rpc, incident, detail }),
            None => None,
        },
    }
}

} // verus!
