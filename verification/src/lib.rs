//! Tools for declaratively constructing HTML DOM trees, together with an
//! in-memory emulation of the web's DOM (`rsdom`) which can render HTML
//! strings.

pub mod rsdom;
pub mod xml;
pub mod html;
pub mod normalize;
pub mod testing;
pub mod cached_node;
pub mod interfaces;
pub mod elements;
pub mod prettiest;

use vstd::prelude::*;
use crate::cached_node::{reconciled, CachedNode};
use crate::rsdom::{NodeId, VirtDocument};

verus! {

/// One render of the boot sequence: makes `root` the only child of
/// `new_parent`, taking it out of wherever it was and dropping every other
/// child of `new_parent`, as each run of the root function does.
pub fn boot(doc: &mut VirtDocument, new_parent: NodeId, root: NodeId)
    requires
        old(doc).wf(),
        old(doc)@.valid(new_parent),
        old(doc)@.valid(root),
        old(doc)@.is_elem(new_parent),
        !old(doc)@.contains(root, new_parent),
    ensures
        final(doc).wf(),
        final(doc)@.nodes == reconciled(old(doc)@, new_parent, seq![root]),
        final(doc)@.children(new_parent) == seq![root],
{
    let ghost v = doc@;
    proof {
        crate::cached_node::law_reconcile(v, new_parent, seq![root]);
        crate::cached_node::lemma_attach_all(v, new_parent, seq![root]);
        assert(seq![root].drop_last() =~= Seq::<NodeId>::empty());
    }
    let mut parent = CachedNode::new(new_parent);
    proof {
        if v.children(new_parent).len() > 0 {
            assert(v.nodes[new_parent as int].children[0] == v.children(new_parent)[0]);
        }
    }
    parent.ensure_child_attached(doc, root);
    proof {
        let w = crate::cached_node::attach_all(v, new_parent, seq![root]);
        assert(crate::cached_node::attach_all(v, new_parent, seq![root].drop_last()) == v);
        assert(seq![root].last() == root);
        assert(w == crate::cached_node::attach_view(v, new_parent, None, root));
        assert(doc@.nodes == w.nodes);
        assert(w.children(new_parent)[0] == w.children(new_parent).take(1)[0]);
        assert(w.nodes[new_parent as int].children[0] == root);
    }
    parent.remove_trailing_children(doc);
}

} // verus!
