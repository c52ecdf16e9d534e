//! The factory of connections between the Raft engines of the nodes.

use vstd::prelude::*;

verus! {

/// Opens connections to the other nodes of the cluster; it holds no state.
#[derive(Debug, Clone, Copy)]
pub struct Network {}

} // verus!
