//! A node of a small Raft key-value cluster: the decisions it makes when it
//! starts, how it answers its HTTP API, how it manages cluster membership and
//! how it asks to join a cluster.

pub mod app;
pub mod cli;
pub mod decimal;
pub mod mq;

pub mod network;
pub mod store;

use vstd::prelude::*;

use crate::decimal::{decimal, push_decimal};

verus! {

/// Identifies a node of the cluster.
pub type NodeId = u64;

/// The addresses at which a node of the cluster is reached.
#[derive(Debug, Clone, PartialEq, Eq, Default)]
pub struct Node {
    pub rpc_addr: String,
    pub api_addr: String,
}

/// How a node is written for people: `Node { rpc_addr: <rpc>, api_addr: <api> }`.
pub open spec fn node_text(rpc_addr: Seq<char>, api_addr: Seq<char>) -> Seq<char> {
    "Node { rpc_addr: "@ + rpc_addr + ", api_addr: "@ + api_addr + " }"@
}

impl Node {
    /// The text form of the node: `Node { rpc_addr: <rpc>, api_addr: <api> }`.
    pub fn to_string(&self) -> (s: String)
        ensures
            s@ == node_text(self.rpc_addr@, self.api_addr@),
    {
        let mut s = String::from_str("Node { rpc_addr: ");
        s.append(self.rpc_addr.as_str());
        s.append(", api_addr: ");
        s.append(self.api_addr.as_str());
        s.append(" }");
        s
    }
}

/// The directory in which node `node_id` keeps its data: `<node_id>-db`.
pub fn db_dir(node_id: NodeId) -> (dir: String)
    ensures
        dir@ == decimal(node_id as nat) + "-db"@,
{
    let mut dir = String::new();
    push_decimal(&mut dir, node_id);
    dir.append("-db");
    assert(dir@ =~= decimal(node_id as nat) + "-db"@);
    dir
}

/// The timing and batching settings of the Raft engine that the node decides on.
#[derive(Debug, Clone, Copy, PartialEq, Eq)]
pub struct RaftSettings {
    /// Milliseconds between the heartbeats a leader sends.
    pub heartbeat_interval: u64,
    /// The least election timeout, in milliseconds.
    pub election_timeout_min: u64,
    /// The greatest election timeout, in milliseconds.
    pub election_timeout_max: u64,
    /// The most log entries sent in one replication payload.
    pub max_payload_entries: u64,
}

/// The settings that the Raft engine accepts: the least election timeout lies
/// below the greatest, the heartbeat comes more often than the least election
/// timeout, and a payload may carry entries.
pub open spec fn settings_valid(s: RaftSettings) -> bool {
    &&& s.election_timeout_min < s.election_timeout_max
    &&& s.heartbeat_interval < s.election_timeout_min
    &&& s.max_payload_entries > 0
}

/// The settings of `openraft::Config::default()`: the election timeout lies
/// between 150 and 300 ms, the heartbeat is sent every 50 ms, and a payload
/// holds at most 300 entries (the defaults that `Config` declares for them).
#[verifier::external_body]
fn default_settings() -> (s: RaftSettings)
    ensures
        s.heartbeat_interval == 50,
        s.election_timeout_min == 150,
        s.election_timeout_max == 300,
        s.max_payload_entries == 300,
{
    let c = openraft::Config::default();
    RaftSettings {
        heartbeat_interval: c.heartbeat_interval,
        election_timeout_min: c.election_timeout_min,
        election_timeout_max: c.election_timeout_max,
        max_payload_entries: c.max_payload_entries,
    }
}

/// Whether `openraft::Config::validate` accepts the default configuration with
/// these settings; its source checks exactly the three conditions of
/// `settings_valid`.
#[verifier::external_body]
fn validate_settings(s: &RaftSettings) -> (ok: bool)
    ensures
        ok == settings_valid(*s),
{
    let mut c = openraft::Config::default();
    c.heartbeat_interval = s.heartbeat_interval;
    c.election_timeout_min = s.election_timeout_min;
    c.election_timeout_max = s.election_timeout_max;
    c.max_payload_entries = s.max_payload_entries;
    c.validate().is_ok()
}

/// The settings a node starts its Raft engine with: the defaults, with a
/// heartbeat every 250 ms and a least election timeout of 299 ms.  The engine
/// accepts them.
pub fn raft_settings() -> (s: RaftSettings)
    ensures
        s == (RaftSettings {
            heartbeat_interval: 250,
            election_timeout_min: 299,
            election_timeout_max: 300,
            max_payload_entries: 300,
        }),
        settings_valid(s),
{
    let defaults = default_settings();
    let s = RaftSettings { heartbeat_interval: 250, election_timeout_min: 299, ..defaults };
    let ok = validate_settings(&s);
    assert(ok);
    s
}

} // verus!
