//! The HTTP API of a node and the RPC transport between nodes.

pub mod api;
pub mod err;
pub mod management;
pub mod payload;
pub mod raft_network_impl;

use vstd::prelude::*;

verus! {

/// The HTTP methods the node answers.
#[derive(Debug, Clone, Copy, PartialEq, Eq)]
pub enum HttpMethod {
    Get,
    Post,
}

/// One entry of a routing table: requests with `method` on `path` go to `endpoint`.
#[derive(Debug, Clone)]
pub struct Route<E> {
    pub method: HttpMethod,
    pub path: String,
    pub endpoint: E,
}

} // verus!
