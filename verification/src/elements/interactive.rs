//! HTML offers a selection of elements which help to create interactive user interface
//! objects.

use vstd::prelude::*;
use crate::cached_node::CachedNode;
use crate::interfaces::content_categories::{FlowContent, HeadingContent, InteractiveContent, PalpableContent, PhrasingContent, SectioningContent};
use crate::interfaces::element::{Element, ElementBuilder};
use crate::interfaces::html_element::HtmlElement;
use crate::interfaces::node::{Memoized, Node};
use crate::rsdom::{create_element, DataView, NodeId, VirtDocument};

verus! {

/// The [HTML Details Element (`<details>`)][mdn] creates a disclosure widget in which
/// information is visible only when the widget is toggled into an "open" state.
///
/// [mdn]: https://developer.mozilla.org/en-US/docs/Web/HTML/Element/details
pub struct Details {
    inner: CachedNode,
}

/// The [HTML Details Element (`<details>`)][mdn] creates a disclosure widget in which
/// information is visible only when the widget is toggled into an "open" state.
///
/// [mdn]: https://developer.mozilla.org/en-US/docs/Web/HTML/Element/details
pub fn details(doc: &mut VirtDocument) -> (r: Details)
    requires
        old(doc).wf(),
    ensures
        final(doc).wf(),
        r.memo_node() == old(doc)@.nodes.len(),
        final(doc)@.nodes == old(doc)@.with_new_node(DataView::Elem { tag: "details"@, attrs: Seq::empty() }),
{
    let n = create_element(doc, "details");
    Details { inner: CachedNode::new(n) }
}

impl Memoized for Details {
    closed spec fn memo_node(&self) -> NodeId {
        self.inner.node()
    }

    fn node(&self) -> (r: &CachedNode) {
        &self.inner
    }
}

impl Node for Details {}

impl Element for Details {}

impl ElementBuilder for Details {}

impl HtmlElement for Details {}

impl FlowContent for Details {}

impl SectioningContent for Details {}

impl InteractiveContent for Details {}

impl PalpableContent for Details {}

impl Details {
    /// Indicates whether the details will be shown on page load.
    pub fn open(self, doc: &mut VirtDocument, to_set: bool) -> (r: Self)
        requires
            old(doc).wf(),
            old(doc)@.valid(self.memo_node()),
            old(doc)@.is_elem(self.memo_node()),
        ensures
            final(doc).wf(),
            final(doc)@.nodes == if to_set { old(doc)@.set_attr(self.memo_node(), "open"@, ""@) } else { old(doc)@.nodes },
            r == self,
    {
        if to_set {
            self.attribute(doc, "open", "")
        } else {
            self
        }
    }
}

/// The [HTML `<dialog>` element][mdn] represents a dialog box or other interactive component,
/// such as an inspector or window.
///
/// [mdn]: https://developer.mozilla.org/en-US/docs/Web/HTML/Element/dialog
pub struct Dialog {
    inner: CachedNode,
}

/// The [HTML `<dialog>` element][mdn] represents a dialog box or other interactive component,
/// such as an inspector or window.
///
/// [mdn]: https://developer.mozilla.org/en-US/docs/Web/HTML/Element/dialog
pub fn dialog(doc: &mut VirtDocument) -> (r: Dialog)
    requires
        old(doc).wf(),
    ensures
        final(doc).wf(),
        r.memo_node() == old(doc)@.nodes.len(),
        final(doc)@.nodes == old(doc)@.with_new_node(DataView::Elem { tag: "dialog"@, attrs: Seq::empty() }),
{
    let n = create_element(doc, "dialog");
    Dialog { inner: CachedNode::new(n) }
}

impl Memoized for Dialog {
    closed spec fn memo_node(&self) -> NodeId {
        self.inner.node()
    }

    fn node(&self) -> (r: &CachedNode) {
        &self.inner
    }
}

impl Node for Dialog {}

impl Element for Dialog {}

impl ElementBuilder for Dialog {}

impl HtmlElement for Dialog {}

impl FlowContent for Dialog {}

impl SectioningContent for Dialog {}

impl Dialog {
    /// Indicates that the dialog is active and can be interacted with. When the open attribute
    /// is not set, the dialog shouldn't be shown to the user.
    pub fn open(self, doc: &mut VirtDocument, to_set: bool) -> (r: Self)
        requires
            old(doc).wf(),
            old(doc)@.valid(self.memo_node()),
            old(doc)@.is_elem(self.memo_node()),
        ensures
            final(doc).wf(),
            final(doc)@.nodes == if to_set { old(doc)@.set_attr(self.memo_node(), "open"@, ""@) } else { old(doc)@.nodes },
            r == self,
    {
        if to_set {
            self.attribute(doc, "open", "")
        } else {
            self
        }
    }
}

/// The [HTML `<menu>` element][mdn] represents a group of commands that a user can perform or
/// activate. This includes both list menus, which might appear across the top of a screen, as
/// well as context menus, such as those that might appear underneath a button after it has been
/// clicked.
///
/// [mdn]: https://developer.mozilla.org/en-US/docs/Web/HTML/Element/menu
pub struct Menu {
    inner: CachedNode,
}

/// The [HTML `<menu>` element][mdn] represents a group of commands that a user can perform or
/// activate. This includes both list menus, which might appear across the top of a screen, as
/// well as context menus, such as those that might appear underneath a button after it has been
/// clicked.
///
/// [mdn]: https://developer.mozilla.org/en-US/docs/Web/HTML/Element/menu
pub fn menu(doc: &mut VirtDocument) -> (r: Menu)
    requires
        old(doc).wf(),
    ensures
        final(doc).wf(),
        r.memo_node() == old(doc)@.nodes.len(),
        final(doc)@.nodes == old(doc)@.with_new_node(DataView::Elem { tag: "menu"@, attrs: Seq::empty() }),
{
    let n = create_element(doc, "menu");
    Menu { inner: CachedNode::new(n) }
}

impl Memoized for Menu {
    closed spec fn memo_node(&self) -> NodeId {
        self.inner.node()
    }

    fn node(&self) -> (r: &CachedNode) {
        &self.inner
    }
}

impl Node for Menu {}

impl Element for Menu {}

impl ElementBuilder for Menu {}

impl HtmlElement for Menu {}

impl FlowContent for Menu {}

impl PalpableContent for Menu {}

/// The [HTML Disclosure Summary element (`<summary>`)][mdn] element specifies a summary,
/// caption, or legend for a [`<details>`][details] element's disclosure box.
///
/// [mdn]: https://developer.mozilla.org/en-US/docs/Web/HTML/Element/summary
/// [details]: https://developer.mozilla.org/en-US/docs/Web/HTML/Element/details
pub struct Summary {
    inner: CachedNode,
}

/// The [HTML Disclosure Summary element (`<summary>`)][mdn] element specifies a summary,
/// caption, or legend for a [`<details>`][details] element's disclosure box.
///
/// [mdn]: https://developer.mozilla.org/en-US/docs/Web/HTML/Element/summary
/// [details]: https://developer.mozilla.org/en-US/docs/Web/HTML/Element/details
pub fn summary(doc: &mut VirtDocument) -> (r: Summary)
    requires
        old(doc).wf(),
    ensures
        final(doc).wf(),
        r.memo_node() == old(doc)@.nodes.len(),
        final(doc)@.nodes == old(doc)@.with_new_node(DataView::Elem { tag: "summary"@, attrs: Seq::empty() }),
{
    let n = create_element(doc, "summary");
    Summary { inner: CachedNode::new(n) }
}

impl Memoized for Summary {
    closed spec fn memo_node(&self) -> NodeId {
        self.inner.node()
    }

    fn node(&self) -> (r: &CachedNode) {
        &self.inner
    }
}

impl Node for Summary {}

impl Element for Summary {}

impl ElementBuilder for Summary {}

impl HtmlElement for Summary {}

impl PhrasingContent for Summary {}

impl HeadingContent for Summary {}

} // verus!
