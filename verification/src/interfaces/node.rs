//! Traits for nodes in the DOM tree.

use vstd::prelude::*;
use crate::cached_node::CachedNode;
use crate::rsdom::NodeId;

verus! {

/// Implemented by types in this crate which wrap a [`CachedNode`].
pub trait Memoized {
    /// The wrapped node.
    spec fn memo_node(&self) -> NodeId;

    /// Return a reference to the inner value.
    fn node(&self) -> (r: &CachedNode)
        ensures
            r.node() == self.memo_node(),
    ;
}

/// Node is an interface from which various types of DOM API objects inherit,
/// allowing those types to be treated similarly; for example, inheriting the
/// same set of methods, or being testable in the same way.
pub trait Node: Memoized {
    /// Retrieves access to the raw node underlying the [`CachedNode`].
    fn raw_node_that_has_sharp_edges_please_be_careful(&self) -> (r: NodeId)
        ensures
            r == self.memo_node(),
    {
        self.node().raw_node()
    }
}

} // verus!
