//! The options a node is started with.

use vstd::prelude::*;

verus! {

/// The command-line options of a node.
#[derive(Debug, Clone)]
pub struct Opt {
    /// The id of this node.
    pub id: u64,
    /// The address of the HTTP API.
    pub http_addr: String,
    /// The address of the Raft RPC service.
    pub rpc_addr: String,
    /// The HTTP address of the leader of the cluster to join, if any.
    pub leader_http_addr: Option<String>,
}

} // verus!
