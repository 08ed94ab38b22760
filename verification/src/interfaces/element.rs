//! Element is the most general base class from which all element objects in a
//! Document inherit.

use vstd::prelude::*;
use crate::interfaces::node::Node;
use crate::rsdom::VirtDocument;

verus! {

/// Element is the most general base class from which all element objects
/// (i.e. objects that represent elements) in a Document inherit. It only has
/// methods and properties common to all kinds of elements.
pub trait ElementBuilder: Node + Sized {
    /// Declare an attribute of the element, setting the actual element's
    /// attribute.
    fn attribute(self, doc: &mut VirtDocument, name: &str, value: &str) -> (r: Self)
        requires
            old(doc).wf(),
            old(doc)@.valid(self.memo_node()),
            old(doc)@.is_elem(self.memo_node()),
        ensures
            final(doc).wf(),
            final(doc)@.nodes == old(doc)@.set_attr(self.memo_node(), name@, value@),
            r == self,
    {
        let n = self.node().raw_node();
        doc.set_attribute(n, name, value);
        self
    }

    /// Updates the element's `class`.
    fn class(self, doc: &mut VirtDocument, to_set: &str) -> (r: Self)
        requires
            old(doc).wf(),
            old(doc)@.valid(self.memo_node()),
            old(doc)@.is_elem(self.memo_node()),
        ensures
            final(doc).wf(),
            final(doc)@.nodes == old(doc)@.set_attr(self.memo_node(), "class"@, to_set@),
            r == self,
    {
        self.attribute(doc, "class", to_set)
    }

    /// Updates the element's `id`.
    fn id(self, doc: &mut VirtDocument, to_set: &str) -> (r: Self)
        requires
            old(doc).wf(),
            old(doc)@.valid(self.memo_node()),
            old(doc)@.is_elem(self.memo_node()),
        ensures
            final(doc).wf(),
            final(doc)@.nodes == old(doc)@.set_attr(self.memo_node(), "id"@, to_set@),
            r == self,
    {
        self.attribute(doc, "id", to_set)
    }

    /// Updates the element's `style`.
    fn style(self, doc: &mut VirtDocument, to_set: &str) -> (r: Self)
        requires
            old(doc).wf(),
            old(doc)@.valid(self.memo_node()),
            old(doc)@.is_elem(self.memo_node()),
        ensures
            final(doc).wf(),
            final(doc)@.nodes == old(doc)@.set_attr(self.memo_node(), "style"@, to_set@),
            r == self,
    {
        self.attribute(doc, "style", to_set)
    }
}

/// A built Element. See [`ElementBuilder`] docs for more details.
pub trait Element: Node {}

} // verus!
