//! The state that the HTTP server of a node shares between its handlers.

use vstd::prelude::*;

use std::collections::BTreeSet;

use crate::NodeId;

verus! {

broadcast use vstd::laws_cmp::group_laws_cmp;

/// The set that holds `node_id` alone: the cluster a node knows of when it starts.
pub fn initial_nodes(node_id: NodeId) -> (nodes: BTreeSet<NodeId>)
    ensures
        nodes@ == set![node_id],
{
    let mut nodes = BTreeSet::new();
    nodes.insert(node_id);
    assert(nodes@ =~= set![node_id]);
    nodes
}

/// What the HTTP server of a node knows: who it is, where it is reached and
/// which nodes it counts as members of the cluster.
#[derive(Debug, Clone)]
pub struct HttpServerApp {
    pub id: NodeId,
    pub api_addr: String,
    pub rpc_addr: String,
    pub nodes: BTreeSet<NodeId>,
}

impl HttpServerApp {
    /// The state of a node that has just started: it knows of itself alone.
    pub fn new(id: NodeId, api_addr: String, rpc_addr: String) -> (app: HttpServerApp)
        ensures
            app.id == id,
            app.api_addr@ == api_addr@,
            app.rpc_addr@ == rpc_addr@,
            app.nodes@ == set![id],
    {
        HttpServerApp { id, api_addr, rpc_addr, nodes: initial_nodes(id) }
    }
}

} // verus!
