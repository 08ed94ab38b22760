//! Trait for the base class of HTML elements.

use vstd::prelude::*;
use vstd::string::*;
use crate::interfaces::element::{Element, ElementBuilder};
use crate::rsdom::VirtDocument;

verus! {

/// The HTMLElement interface represents any HTML element.
pub trait HtmlElement: Element + ElementBuilder {
    /// Keyboard shortcut to activate or add focus to the element.
    fn accesskey(self, doc: &mut VirtDocument, to_set: &str) -> (r: Self)
        requires
            old(doc).wf(),
            old(doc)@.valid(self.memo_node()),
            old(doc)@.is_elem(self.memo_node()),
        ensures
            final(doc).wf(),
            final(doc)@.nodes == old(doc)@.set_attr(self.memo_node(), "accesskey"@, to_set@),
            r == self,
    {
        self.attribute(doc, "accesskey", to_set)
    }

    /// Sets whether input is automatically capitalized when entered by user: `off` or `none`,
    /// `on` or `sentences`, `words`, or `characters`.
    fn autocapitalize(self, doc: &mut VirtDocument, to_set: &str) -> (r: Self)
        requires
            old(doc).wf(),
            old(doc)@.valid(self.memo_node()),
            old(doc)@.is_elem(self.memo_node()),
        ensures
            final(doc).wf(),
            final(doc)@.nodes == old(doc)@.set_attr(self.memo_node(), "autocapitalize"@, to_set@),
            r == self,
    {
        self.attribute(doc, "autocapitalize", to_set)
    }

    /// The directionality of the element: `ltr`, `rtl` or `auto`.
    fn dir(self, doc: &mut VirtDocument, to_set: &str) -> (r: Self)
        requires
            old(doc).wf(),
            old(doc)@.valid(self.memo_node()),
            old(doc)@.is_elem(self.memo_node()),
        ensures
            final(doc).wf(),
            final(doc)@.nodes == old(doc)@.set_attr(self.memo_node(), "dir"@, to_set@),
            r == self,
    {
        self.attribute(doc, "dir", to_set)
    }

    /// Provides a hint as to the type of data that might be entered by the user while editing
    /// the element or its contents.
    fn inputmode(self, doc: &mut VirtDocument, to_set: &str) -> (r: Self)
        requires
            old(doc).wf(),
            old(doc)@.valid(self.memo_node()),
            old(doc)@.is_elem(self.memo_node()),
        ensures
            final(doc).wf(),
            final(doc)@.nodes == old(doc)@.set_attr(self.memo_node(), "inputmode"@, to_set@),
            r == self,
    {
        self.attribute(doc, "inputmode", to_set)
    }

    /// The language of an element's attributes, text, and element contents.
    fn lang(self, doc: &mut VirtDocument, to_set: &str) -> (r: Self)
        requires
            old(doc).wf(),
            old(doc)@.valid(self.memo_node()),
            old(doc)@.is_elem(self.memo_node()),
        ensures
            final(doc).wf(),
            final(doc)@.nodes == old(doc)@.set_attr(self.memo_node(), "lang"@, to_set@),
            r == self,
    {
        self.attribute(doc, "lang", to_set)
    }

    /// Assigns a slot in a shadow DOM shadow tree to an element.
    fn slot(self, doc: &mut VirtDocument, to_set: &str) -> (r: Self)
        requires
            old(doc).wf(),
            old(doc)@.valid(self.memo_node()),
            old(doc)@.is_elem(self.memo_node()),
        ensures
            final(doc).wf(),
            final(doc)@.nodes == old(doc)@.set_attr(self.memo_node(), "slot"@, to_set@),
            r == self,
    {
        self.attribute(doc, "slot", to_set)
    }

    /// Indicates whether spell checking is allowed for the element.
    fn spellcheck(self, doc: &mut VirtDocument, to_set: &str) -> (r: Self)
        requires
            old(doc).wf(),
            old(doc)@.valid(self.memo_node()),
            old(doc)@.is_elem(self.memo_node()),
        ensures
            final(doc).wf(),
            final(doc)@.nodes == old(doc)@.set_attr(self.memo_node(), "spellcheck"@, to_set@),
            r == self,
    {
        self.attribute(doc, "spellcheck", to_set)
    }

    /// Overrides the browser's default tab order and follows the one specified instead.
    fn tabindex(self, doc: &mut VirtDocument, to_set: &str) -> (r: Self)
        requires
            old(doc).wf(),
            old(doc)@.valid(self.memo_node()),
            old(doc)@.is_elem(self.memo_node()),
        ensures
            final(doc).wf(),
            final(doc)@.nodes == old(doc)@.set_attr(self.memo_node(), "tabindex"@, to_set@),
            r == self,
    {
        self.attribute(doc, "tabindex", to_set)
    }

    /// The text that appears in a popup box when mouse is over the element.
    fn title(self, doc: &mut VirtDocument, to_set: &str) -> (r: Self)
        requires
            old(doc).wf(),
            old(doc)@.valid(self.memo_node()),
            old(doc)@.is_elem(self.memo_node()),
        ensures
            final(doc).wf(),
            final(doc)@.nodes == old(doc)@.set_attr(self.memo_node(), "title"@, to_set@),
            r == self,
    {
        self.attribute(doc, "title", to_set)
    }

    /// A value of "true" means the element is editable and a value of "false" means it isn't;
    /// the attribute is set (empty) only when `to_set` is true.
    fn contenteditable(self, doc: &mut VirtDocument, to_set: bool) -> (r: Self)
        requires
            old(doc).wf(),
            old(doc)@.valid(self.memo_node()),
            old(doc)@.is_elem(self.memo_node()),
        ensures
            final(doc).wf(),
            to_set ==> final(doc)@.nodes == old(doc)@.set_attr(self.memo_node(), "contenteditable"@, ""@),
            !to_set ==> final(doc)@ == old(doc)@,
            r == self,
    {
        if to_set {
            self.attribute(doc, "contenteditable", "")
        } else {
            self
        }
    }

    /// Defines whether the element can be dragged; set (empty) only when `to_set` is true.
    fn draggable(self, doc: &mut VirtDocument, to_set: bool) -> (r: Self)
        requires
            old(doc).wf(),
            old(doc)@.valid(self.memo_node()),
            old(doc)@.is_elem(self.memo_node()),
        ensures
            final(doc).wf(),
            to_set ==> final(doc)@.nodes == old(doc)@.set_attr(self.memo_node(), "draggable"@, ""@),
            !to_set ==> final(doc)@ == old(doc)@,
            r == self,
    {
        if to_set {
            self.attribute(doc, "draggable", "")
        } else {
            self
        }
    }

    /// Indicates if the element is hidden or not; set (empty) only when `to_set` is true.
    fn hidden(self, doc: &mut VirtDocument, to_set: bool) -> (r: Self)
        requires
            old(doc).wf(),
            old(doc)@.valid(self.memo_node()),
            old(doc)@.is_elem(self.memo_node()),
        ensures
            final(doc).wf(),
            to_set ==> final(doc)@.nodes == old(doc)@.set_attr(self.memo_node(), "hidden"@, ""@),
            !to_set ==> final(doc)@ == old(doc)@,
            r == self,
    {
        if to_set {
            self.attribute(doc, "hidden", "")
        } else {
            self
        }
    }

    /// Indicates whether the user agent must act as though the given node is absent for the
    /// purposes of user interaction events; set (empty) only when `to_set` is true.
    fn inert(self, doc: &mut VirtDocument, to_set: bool) -> (r: Self)
        requires
            old(doc).wf(),
            old(doc)@.valid(self.memo_node()),
            old(doc)@.is_elem(self.memo_node()),
        ensures
            final(doc).wf(),
            to_set ==> final(doc)@.nodes == old(doc)@.set_attr(self.memo_node(), "inert"@, ""@),
            !to_set ==> final(doc)@ == old(doc)@,
            r == self,
    {
        if to_set {
            self.attribute(doc, "inert", "")
        } else {
            self
        }
    }

    /// Forms a class of attributes, called custom data attributes, that allow
    /// proprietary information to be exchanged between the HTML and its DOM
    /// representation: sets `data-{key}`.
    fn data(self, doc: &mut VirtDocument, key: &str, value: &str) -> (r: Self)
        requires
            old(doc).wf(),
            old(doc)@.valid(self.memo_node()),
            old(doc)@.is_elem(self.memo_node()),
        ensures
            final(doc).wf(),
            final(doc)@.nodes == old(doc)@.set_attr(self.memo_node(), "data-"@ + key@, value@),
            r == self,
    {
        let mut name = "data-".to_string();
        name.append(key);
        self.attribute(doc, name.as_str(), value)
    }
}

} // verus!
