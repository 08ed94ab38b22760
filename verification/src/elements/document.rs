//! The root of a document and its main sections, and web component slots and templates.

use vstd::prelude::*;
use crate::cached_node::CachedNode;
use crate::interfaces::content_categories::{FlowContent, MetadataContent, PhrasingContent, SectioningContent};
use crate::interfaces::element::{Element, ElementBuilder};
use crate::interfaces::html_element::HtmlElement;
use crate::interfaces::node::{Memoized, Node};
use crate::rsdom::{create_element, DataView, NodeId, VirtDocument};

verus! {

/// The [`<html>` element][mdn] represents the root (top-level element) of an HTML document,
/// so it is also referred to as the *root element*. All other elements must be descendants of
/// this element.
///
/// [mdn]: https://developer.mozilla.org/en-US/docs/Web/HTML/Element/html
pub struct Html {
    inner: CachedNode,
}

/// The [`<html>` element][mdn] represents the root (top-level element) of an HTML document,
/// so it is also referred to as the *root element*. All other elements must be descendants of
/// this element.
///
/// [mdn]: https://developer.mozilla.org/en-US/docs/Web/HTML/Element/html
pub fn html(doc: &mut VirtDocument) -> (r: Html)
    requires
        old(doc).wf(),
    ensures
        final(doc).wf(),
        r.memo_node() == old(doc)@.nodes.len(),
        final(doc)@.nodes == old(doc)@.with_new_node(DataView::Elem { tag: "html"@, attrs: Seq::empty() }),
{
    let n = create_element(doc, "html");
    Html { inner: CachedNode::new(n) }
}

impl Memoized for Html {
    closed spec fn memo_node(&self) -> NodeId {
        self.inner.node()
    }

    fn node(&self) -> (r: &CachedNode) {
        &self.inner
    }
}

impl Node for Html {}

impl Element for Html {}

impl ElementBuilder for Html {}

impl HtmlElement for Html {}

impl Html {
    /// Specifies the XML Namespace of the document. Default value is
    /// "http://www.w3.org/1999/xhtml". This is required in documents parsed with XML parsers,
    /// and optional in text/html documents.
    pub fn xmlns(self, doc: &mut VirtDocument, to_set: &str) -> (r: Self)
        requires
            old(doc).wf(),
            old(doc)@.valid(self.memo_node()),
            old(doc)@.is_elem(self.memo_node()),
        ensures
            final(doc).wf(),
            final(doc)@.nodes == old(doc)@.set_attr(self.memo_node(), "xmlns"@, to_set@),
            r == self,
    {
        self.attribute(doc, "xmlns", to_set)
    }
}

/// The [HTML `<body>` element][mdn] represents the content of an HTML document. There can be
/// only one `<body>` element in a document.
///
/// [mdn]: https://developer.mozilla.org/en-US/docs/Web/HTML/Element/body
pub struct Body {
    inner: CachedNode,
}

/// The [HTML `<body>` element][mdn] represents the content of an HTML document. There can be
/// only one `<body>` element in a document.
///
/// [mdn]: https://developer.mozilla.org/en-US/docs/Web/HTML/Element/body
pub fn body(doc: &mut VirtDocument) -> (r: Body)
    requires
        old(doc).wf(),
    ensures
        final(doc).wf(),
        r.memo_node() == old(doc)@.nodes.len(),
        final(doc)@.nodes == old(doc)@.with_new_node(DataView::Elem { tag: "body"@, attrs: Seq::empty() }),
{
    let n = create_element(doc, "body");
    Body { inner: CachedNode::new(n) }
}

impl Memoized for Body {
    closed spec fn memo_node(&self) -> NodeId {
        self.inner.node()
    }

    fn node(&self) -> (r: &CachedNode) {
        &self.inner
    }
}

impl Node for Body {}

impl Element for Body {}

impl ElementBuilder for Body {}

impl HtmlElement for Body {}

impl SectioningContent for Body {}

/// The [HTML `<slot>` element][mdn]—part of the [Web Components][wc] technology suite—is a
/// placeholder inside a web component that you can fill with your own markup, which lets you
/// create separate DOM trees and present them together.
///
/// [mdn]: https://developer.mozilla.org/en-US/docs/Web/HTML/Element/slot
/// [wc]: https://developer.mozilla.org/en-US/docs/Web/Web_Components
pub struct Slot {
    inner: CachedNode,
}

/// The [HTML `<slot>` element][mdn]—part of the [Web Components][wc] technology suite—is a
/// placeholder inside a web component that you can fill with your own markup, which lets you
/// create separate DOM trees and present them together.
///
/// [mdn]: https://developer.mozilla.org/en-US/docs/Web/HTML/Element/slot
/// [wc]: https://developer.mozilla.org/en-US/docs/Web/Web_Components
pub fn slot(doc: &mut VirtDocument) -> (r: Slot)
    requires
        old(doc).wf(),
    ensures
        final(doc).wf(),
        r.memo_node() == old(doc)@.nodes.len(),
        final(doc)@.nodes == old(doc)@.with_new_node(DataView::Elem { tag: "slot"@, attrs: Seq::empty() }),
{
    let n = create_element(doc, "slot");
    Slot { inner: CachedNode::new(n) }
}

impl Memoized for Slot {
    closed spec fn memo_node(&self) -> NodeId {
        self.inner.node()
    }

    fn node(&self) -> (r: &CachedNode) {
        &self.inner
    }
}

impl Node for Slot {}

impl Element for Slot {}

impl ElementBuilder for Slot {}

impl HtmlElement for Slot {}

impl FlowContent for Slot {}

impl PhrasingContent for Slot {}

impl Slot {
    /// The slot's name.
    pub fn name(self, doc: &mut VirtDocument, to_set: &str) -> (r: Self)
        requires
            old(doc).wf(),
            old(doc)@.valid(self.memo_node()),
            old(doc)@.is_elem(self.memo_node()),
        ensures
            final(doc).wf(),
            final(doc)@.nodes == old(doc)@.set_attr(self.memo_node(), "name"@, to_set@),
            r == self,
    {
        self.attribute(doc, "name", to_set)
    }
}

/// The [HTML Content Template (`<template>`) element][mdn] is a mechanism for holding [HTML]
/// that is not to be rendered immediately when a page is loaded but may be instantiated
/// subsequently during runtime using JavaScript.
///
/// [mdn]: https://developer.mozilla.org/en-US/docs/Web/HTML/Element/template
/// [HTML]: https://developer.mozilla.org/en-US/docs/Glossary/HTML
pub struct Template {
    inner: CachedNode,
}

/// The [HTML Content Template (`<template>`) element][mdn] is a mechanism for holding [HTML]
/// that is not to be rendered immediately when a page is loaded but may be instantiated
/// subsequently during runtime using JavaScript.
///
/// [mdn]: https://developer.mozilla.org/en-US/docs/Web/HTML/Element/template
/// [HTML]: https://developer.mozilla.org/en-US/docs/Glossary/HTML
pub fn template(doc: &mut VirtDocument) -> (r: Template)
    requires
        old(doc).wf(),
    ensures
        final(doc).wf(),
        r.memo_node() == old(doc)@.nodes.len(),
        final(doc)@.nodes == old(doc)@.with_new_node(DataView::Elem { tag: "template"@, attrs: Seq::empty() }),
{
    let n = create_element(doc, "template");
    Template { inner: CachedNode::new(n) }
}

impl Memoized for Template {
    closed spec fn memo_node(&self) -> NodeId {
        self.inner.node()
    }

    fn node(&self) -> (r: &CachedNode) {
        &self.inner
    }
}

impl Node for Template {}

impl Element for Template {}

impl ElementBuilder for Template {}

impl HtmlElement for Template {}

impl MetadataContent for Template {}

impl FlowContent for Template {}

impl PhrasingContent for Template {}

} // verus!
