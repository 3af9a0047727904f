//! The three Raft calls and the address each one is posted to.

use vstd::prelude::*;
use vstd::string::*;

verus! {

/// One of the three calls that cluster members exchange.
#[derive(Clone, Copy, Debug, PartialEq, Eq, Structural)]
pub enum RpcKind {
    AppendEntries,
    InstallSnapshot,
    Vote,
}

/// The path under which every member serves the cluster's endpoints.
pub open spec fn cluster_scope() -> Seq<char> {
    "/api/cluster"@
}

/// The path under which every member serves the cluster's endpoints.
pub fn cluster_scope_path() -> (path: &'static str)
    ensures
        path@ == cluster_scope(),
{
    "/api/cluster"
}

impl RpcKind {
    /// The last segment of the endpoint that takes this call.
    pub open spec fn path_spec(self) -> Seq<char> {
        match self {
            RpcKind::AppendEntries => "entries"@,
            RpcKind::InstallSnapshot => "snapshots"@,
            RpcKind::Vote => "vote"@,
        }
    }

    /// The last segment of the endpoint that takes this call.
    pub fn path(self) -> (segment: &'static str)
        ensures
            segment@ == self.path_spec(),
    {
        match self {
            RpcKind::AppendEntries => "entries",
            RpcKind::InstallSnapshot => "snapshots",
            RpcKind::Vote => "vote",
        }
    }
}

impl RpcKind {
    /// The path at which a member serves this call.
    pub open spec fn endpoint_spec(self) -> Seq<char> {
        cluster_scope() + "/"@ + self.path_spec()
    }

    /// The path at which a member serves this call.
    pub fn endpoint(self) -> (endpoint: String)
        ensures
            endpoint@ == self.endpoint_spec(),
    {
        String::from_str(cluster_scope_path()).concat("/").concat(self.path())
    }
}

/// The address of a peer's cluster endpoints: the peer's own address followed
/// by the cluster scope.
pub open spec fn scope_spec(address: Seq<char>) -> Seq<char> {
    address + cluster_scope()
}

/// The address that `path` is posted to under `scope`.
pub open spec fn route_spec(scope: Seq<char>, path: Seq<char>) -> Seq<char> {
    scope + "/"@ + path
}

/// Builds the address of a peer's cluster endpoints.
pub fn scope_of(address: &str) -> (scope: String)
    ensures
        scope@ == scope_spec(address@),
{
    String::from_str(address).concat(cluster_scope_path())
}

/// Builds the address that `path` is posted to under `scope`.
pub fn route_to(scope: &str, path: &str) -> (route: String)
    ensures
        route@ == route_spec(scope@, path@),
{
    String::from_str(scope).concat("/").concat(path)
}

/// The address that a call is posted to is the peer's address followed by the
/// path at which every member serves that call: what one member posts to is
/// what the other serves.
pub proof fn posted_to_where_it_is_served(address: Seq<char>, rpc: RpcKind)
    ensures
        route_spec(scope_spec(address), rpc.path_spec()) == address + rpc.endpoint_spec(),
{
}

} // verus!
