//! Cluster management: adding learners, changing membership, initializing a
//! cluster and reporting metrics.

use vstd::prelude::*;

use std::collections::{BTreeMap, BTreeSet};

use crate::app::HttpServerApp;
use crate::network::api::route_is;
use crate::network::err::{
    deserialize_failed_message, is_deserialize_failure, is_failure_caused_by, AppError,
};
use crate::network::payload::{json_error_text, json_learner, parse_json_learner};
use crate::network::{HttpMethod, Route};
use crate::{Node, NodeId};

verus! {

broadcast use vstd::laws_cmp::group_laws_cmp;

/// The handlers of the management API.
#[derive(Debug, Clone, Copy, PartialEq, Eq)]
pub enum ManagementEndpoint {
    AddLearner,
    ChangeMembership,
    Init,
    Metrics,
}

/// The routes of the management API: `POST /cluster/add-learner`,
/// `POST /cluster/change-membership`, `POST /cluster/init` and
/// `GET /cluster/metrics`, in that order.
pub fn rest() -> (routes: Vec<Route<ManagementEndpoint>>)
    ensures
        routes@.len() == 4,
        route_is(routes@[0], HttpMethod::Post, "/cluster/add-learner"@, ManagementEndpoint::AddLearner),
        route_is(
            routes@[1],
            HttpMethod::Post,
            "/cluster/change-membership"@,
            ManagementEndpoint::ChangeMembership,
        ),
        route_is(routes@[2], HttpMethod::Post, "/cluster/init"@, ManagementEndpoint::Init),
        route_is(routes@[3], HttpMethod::Get, "/cluster/metrics"@, ManagementEndpoint::Metrics),
{
    let mut routes = Vec::new();
    routes.push(
        Route {
            method: HttpMethod::Post,
            path: String::from_str("/cluster/add-learner"),
            endpoint: ManagementEndpoint::AddLearner,
        },
    );
    routes.push(
        Route {
            method: HttpMethod::Post,
            path: String::from_str("/cluster/change-membership"),
            endpoint: ManagementEndpoint::ChangeMembership,
        },
    );
    routes.push(
        Route {
            method: HttpMethod::Post,
            path: String::from_str("/cluster/init"),
            endpoint: ManagementEndpoint::Init,
        },
    );
    routes.push(
        Route {
            method: HttpMethod::Get,
            path: String::from_str("/cluster/metrics"),
            endpoint: ManagementEndpoint::Metrics,
        },
    );
    routes
}

/// `res` is the learner registration of node `id` at API address `api` and
/// RPC address `rpc`.
pub open spec fn is_learner(res: (NodeId, Node), id: NodeId, api: Seq<char>, rpc: Seq<char>) -> bool {
    res.0 == id && res.1.api_addr@ == api && res.1.rpc_addr@ == rpc
}

/// A learner registration hands on exactly the node that was named: its id,
/// and both addresses whole, character for character, whatever their length.
pub proof fn law_learner_keeps_addresses(
    res: (NodeId, Node),
    id: NodeId,
    api: Seq<char>,
    rpc: Seq<char>,
)
    requires
        is_learner(res, id, api, rpc),
    ensures
        res.0 == id,
        res.1.api_addr@.len() == api.len(),
        forall|i: int| 0 <= i < api.len() ==> res.1.api_addr@[i] == api[i],
        res.1.rpc_addr@.len() == rpc.len(),
        forall|i: int| 0 <= i < rpc.len() ==> res.1.rpc_addr@[i] == rpc[i],
{
}

/// Registers the learner that the request body named, given what reading the
/// body gave (the learner, or the reader's error text): the node joins the set
/// of members to be, and comes back with its addresses for the Raft engine to
/// add it as a learner; a body that named none is refused, with the reader's
/// error as the cause, and changes nothing.
pub fn register_learner(learner: Result<(NodeId, String, String), String>, app: &mut HttpServerApp) -> (res:
    Result<(NodeId, Node), AppError>)
    ensures
        final(app).id == old(app).id,
        final(app).api_addr == old(app).api_addr,
        final(app).rpc_addr == old(app).rpc_addr,
        match learner {
            Ok((id, api, rpc)) => {
                &&& res matches Ok(r) && is_learner(r, id, api@, rpc@) && r.0 == id
                    && r.1.api_addr@ == api@ && r.1.rpc_addr@ == rpc@
                &&& final(app).nodes@ == old(app).nodes@.insert(id)
            },
            Err(c) => {
                &&& res matches Err(e) && is_failure_caused_by(e, deserialize_failed_message(), c@)
                &&& final(app).nodes@ == old(app).nodes@
            },
        },
{
    match learner {
        Ok((node_id, api_addr, rpc_addr)) => {
            let node = Node { rpc_addr, api_addr };
            app.nodes.insert(node_id);
            Ok((node_id, node))
        },
        Err(c) => Err(AppError::deserialize_failed(c)),
    }
}

/// Adds the node that the JSON body `[id, api_addr, rpc_addr]` names as a
/// learner: it joins the set of members to be and comes back with its
/// addresses; a body that is not such an array is refused, with the reader's
/// error as the cause, and changes nothing.
///
/// A learner receives log replication from the leader but does not vote.
/// This should be done before adding a node as a member into the cluster
/// (by calling `change_membership`).
pub fn add_learner(payload: &[u8], app: &mut HttpServerApp) -> (res: Result<(NodeId, Node), AppError>)
    ensures
        final(app).id == old(app).id,
        final(app).api_addr == old(app).api_addr,
        final(app).rpc_addr == old(app).rpc_addr,
        match json_learner(payload@) {
            Some((id, api, rpc)) => {
                &&& res matches Ok(r) && is_learner(r, id, api, rpc) && r.0 == id && r.1.api_addr@
                    == api && r.1.rpc_addr@ == rpc
                &&& final(app).nodes@ == old(app).nodes@.insert(id)
            },
            None => {
                &&& res matches Err(e) && is_deserialize_failure(e)
                &&& final(app).nodes@ == old(app).nodes@
            },
        },
{
    let learner = match parse_json_learner(payload) {
        Ok(l) => Ok(l),
        Err(e) => Err(json_error_text(&e)),
    };
    register_learner(learner, app)
}

/// A node registered as a learner is among the members the cluster is then
/// changed to, and so is every node registered before it; registering a node
/// again changes nothing.
pub proof fn law_learners_become_members(registered: Set<NodeId>, id: NodeId, other: NodeId)
    ensures
        registered.insert(id).contains(id),
        registered.contains(other) ==> registered.insert(id).contains(other),
        registered.insert(id).insert(id) == registered.insert(id),
{
    assert(registered.insert(id).insert(id) =~= registered.insert(id));
}

/// The membership the cluster is changed to: every node registered so far.
pub fn change_membership(app: &HttpServerApp) -> (members: BTreeSet<NodeId>)
    ensures
        members@ == app.nodes@,
{
    app.nodes.clone()
}

/// The membership a single-node cluster is initialized with: this node alone,
/// at its own addresses.
pub fn init(app: &HttpServerApp) -> (members: BTreeMap<NodeId, Node>)
    ensures
        members@.dom() == set![app.id],
        members@[app.id].api_addr@ == app.api_addr@,
        members@[app.id].rpc_addr@ == app.rpc_addr@,
{
    let mut members = BTreeMap::new();
    let node = Node { api_addr: app.api_addr.clone(), rpc_addr: app.rpc_addr.clone() };
    members.insert(app.id, node);
    assert(members@.dom() =~= set![app.id]);
    members
}

} // verus!
