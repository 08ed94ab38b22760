//! Elements that organize blocks or sections of content placed between the opening
//! `<body>` and closing `</body>` tags.

use vstd::prelude::*;
use crate::cached_node::CachedNode;
use crate::interfaces::element::{Element, ElementBuilder};
use crate::interfaces::html_element::HtmlElement;
use crate::interfaces::node::{Memoized, Node};
use crate::elements::{decimal, decimal_string};
use crate::rsdom::{create_element, DataView, NodeId, VirtDocument};

verus! {

/// The [HTML `<blockquote>` element][mdn] (or *HTML Block Quotation Element*) indicates that
/// the enclosed text is an extended quotation. Usually, this is rendered visually by
/// indentation. A URL for the source of the quotation may be given using the `cite` attribute,
/// while a text representation of the source can be given using the [`<cite>`][cite] element.
///
/// [mdn]: https://developer.mozilla.org/en-US/docs/Web/HTML/Element/blockquote
/// [cite]: https://developer.mozilla.org/en-US/docs/Web/HTML/Element/cite
pub struct Blockquote {
    inner: CachedNode,
}

/// The [HTML `<blockquote>` element][mdn] (or *HTML Block Quotation Element*) indicates that
/// the enclosed text is an extended quotation. Usually, this is rendered visually by
/// indentation. A URL for the source of the quotation may be given using the `cite` attribute,
/// while a text representation of the source can be given using the [`<cite>`][cite] element.
///
/// [mdn]: https://developer.mozilla.org/en-US/docs/Web/HTML/Element/blockquote
/// [cite]: https://developer.mozilla.org/en-US/docs/Web/HTML/Element/cite
pub fn blockquote(doc: &mut VirtDocument) -> (r: Blockquote)
    requires
        old(doc).wf(),
    ensures
        final(doc).wf(),
        r.memo_node() == old(doc)@.nodes.len(),
        final(doc)@.nodes == old(doc)@.with_new_node(DataView::Elem { tag: "blockquote"@, attrs: Seq::empty() }),
{
    let n = create_element(doc, "blockquote");
    Blockquote { inner: CachedNode::new(n) }
}

impl Memoized for Blockquote {
    closed spec fn memo_node(&self) -> NodeId {
        self.inner.node()
    }

    fn node(&self) -> (r: &CachedNode) {
        &self.inner
    }
}

impl Node for Blockquote {}

impl Element for Blockquote {}

impl ElementBuilder for Blockquote {}

impl HtmlElement for Blockquote {}

impl Blockquote {
    /// A URL that designates a source document or message for the information quoted. This
    /// attribute is intended to point to information explaining the context or the reference
    /// for the quote.
    pub fn cite(self, doc: &mut VirtDocument, to_set: &str) -> (r: Self)
        requires
            old(doc).wf(),
            old(doc)@.valid(self.memo_node()),
            old(doc)@.is_elem(self.memo_node()),
        ensures
            final(doc).wf(),
            final(doc)@.nodes == old(doc)@.set_attr(self.memo_node(), "cite"@, to_set@),
            r == self,
    {
        self.attribute(doc, "cite", to_set)
    }
}

/// The [HTML `<dd>` element][mdn] provides the description, definition, or value for the
/// preceding term ([`<dt>`][dt]) in a description list ([`<dl>`][dl]).
///
/// [mdn]: https://developer.mozilla.org/en-US/docs/Web/HTML/Element/dd
/// [dt]: https://developer.mozilla.org/en-US/docs/Web/HTML/Element/dt
/// [dl]: https://developer.mozilla.org/en-US/docs/Web/HTML/Element/dl
pub struct Dd {
    inner: CachedNode,
}

/// The [HTML `<dd>` element][mdn] provides the description, definition, or value for the
/// preceding term ([`<dt>`][dt]) in a description list ([`<dl>`][dl]).
///
/// [mdn]: https://developer.mozilla.org/en-US/docs/Web/HTML/Element/dd
/// [dt]: https://developer.mozilla.org/en-US/docs/Web/HTML/Element/dt
/// [dl]: https://developer.mozilla.org/en-US/docs/Web/HTML/Element/dl
pub fn dd(doc: &mut VirtDocument) -> (r: Dd)
    requires
        old(doc).wf(),
    ensures
        final(doc).wf(),
        r.memo_node() == old(doc)@.nodes.len(),
        final(doc)@.nodes == old(doc)@.with_new_node(DataView::Elem { tag: "dd"@, attrs: Seq::empty() }),
{
    let n = create_element(doc, "dd");
    Dd { inner: CachedNode::new(n) }
}

impl Memoized for Dd {
    closed spec fn memo_node(&self) -> NodeId {
        self.inner.node()
    }

    fn node(&self) -> (r: &CachedNode) {
        &self.inner
    }
}

impl Node for Dd {}

impl Element for Dd {}

impl ElementBuilder for Dd {}

impl HtmlElement for Dd {}

/// The [HTML Content Division element (`<div>`)][mdn] is the generic container for flow
/// content. It has no effect on the content or layout until styled using [CSS].
///
/// [mdn]: https://developer.mozilla.org/en-US/docs/Web/HTML/Element/div
/// [CSS]: https://developer.mozilla.org/en-US/docs/Glossary/CSS
pub struct Div {
    inner: CachedNode,
}

/// The [HTML Content Division element (`<div>`)][mdn] is the generic container for flow
/// content. It has no effect on the content or layout until styled using [CSS].
///
/// [mdn]: https://developer.mozilla.org/en-US/docs/Web/HTML/Element/div
/// [CSS]: https://developer.mozilla.org/en-US/docs/Glossary/CSS
pub fn div(doc: &mut VirtDocument) -> (r: Div)
    requires
        old(doc).wf(),
    ensures
        final(doc).wf(),
        r.memo_node() == old(doc)@.nodes.len(),
        final(doc)@.nodes == old(doc)@.with_new_node(DataView::Elem { tag: "div"@, attrs: Seq::empty() }),
{
    let n = create_element(doc, "div");
    Div { inner: CachedNode::new(n) }
}

impl Memoized for Div {
    closed spec fn memo_node(&self) -> NodeId {
        self.inner.node()
    }

    fn node(&self) -> (r: &CachedNode) {
        &self.inner
    }
}

impl Node for Div {}

impl Element for Div {}

impl ElementBuilder for Div {}

impl HtmlElement for Div {}

/// The [HTML `<dl>` element][mdn] represents a description list. The element encloses a list of
/// groups of terms (specified using the [`<dt>`][dt] element) and descriptions (provided by
/// [`<dd>`][dd] elements). Common uses for this element are to implement a glossary or to
/// display metadata (a list of key-value pairs).
///
/// [mdn]: https://developer.mozilla.org/en-US/docs/Web/HTML/Element/dl
/// [dt]: https://developer.mozilla.org/en-US/docs/Web/HTML/Element/dt
/// [dd]: https://developer.mozilla.org/en-US/docs/Web/HTML/Element/dd
pub struct Dl {
    inner: CachedNode,
}

/// The [HTML `<dl>` element][mdn] represents a description list. The element encloses a list of
/// groups of terms (specified using the [`<dt>`][dt] element) and descriptions (provided by
/// [`<dd>`][dd] elements). Common uses for this element are to implement a glossary or to
/// display metadata (a list of key-value pairs).
///
/// [mdn]: https://developer.mozilla.org/en-US/docs/Web/HTML/Element/dl
/// [dt]: https://developer.mozilla.org/en-US/docs/Web/HTML/Element/dt
/// [dd]: https://developer.mozilla.org/en-US/docs/Web/HTML/Element/dd
pub fn dl(doc: &mut VirtDocument) -> (r: Dl)
    requires
        old(doc).wf(),
    ensures
        final(doc).wf(),
        r.memo_node() == old(doc)@.nodes.len(),
        final(doc)@.nodes == old(doc)@.with_new_node(DataView::Elem { tag: "dl"@, attrs: Seq::empty() }),
{
    let n = create_element(doc, "dl");
    Dl { inner: CachedNode::new(n) }
}

impl Memoized for Dl {
    closed spec fn memo_node(&self) -> NodeId {
        self.inner.node()
    }

    fn node(&self) -> (r: &CachedNode) {
        &self.inner
    }
}

impl Node for Dl {}

impl Element for Dl {}

impl ElementBuilder for Dl {}

impl HtmlElement for Dl {}

/// The [HTML `<dt>` element][mdn] specifies a term in a description or definition list, and as
/// such must be used inside a [`<dl>`][dl] element.
///
/// [mdn]: https://developer.mozilla.org/en-US/docs/Web/HTML/Element/dt
/// [dl]: https://developer.mozilla.org/en-US/docs/Web/HTML/Element/dl
pub struct Dt {
    inner: CachedNode,
}

/// The [HTML `<dt>` element][mdn] specifies a term in a description or definition list, and as
/// such must be used inside a [`<dl>`][dl] element.
///
/// [mdn]: https://developer.mozilla.org/en-US/docs/Web/HTML/Element/dt
/// [dl]: https://developer.mozilla.org/en-US/docs/Web/HTML/Element/dl
pub fn dt(doc: &mut VirtDocument) -> (r: Dt)
    requires
        old(doc).wf(),
    ensures
        final(doc).wf(),
        r.memo_node() == old(doc)@.nodes.len(),
        final(doc)@.nodes == old(doc)@.with_new_node(DataView::Elem { tag: "dt"@, attrs: Seq::empty() }),
{
    let n = create_element(doc, "dt");
    Dt { inner: CachedNode::new(n) }
}

impl Memoized for Dt {
    closed spec fn memo_node(&self) -> NodeId {
        self.inner.node()
    }

    fn node(&self) -> (r: &CachedNode) {
        &self.inner
    }
}

impl Node for Dt {}

impl Element for Dt {}

impl ElementBuilder for Dt {}

impl HtmlElement for Dt {}

/// The [HTML `<figcaption>` or Figure Caption element][mdn] represents a caption or legend
/// describing the rest of the contents of its parent [`<figure>`][figure] element.
///
/// [mdn]: https://developer.mozilla.org/en-US/docs/Web/HTML/Element/figcaption
/// [figure]: https://developer.mozilla.org/en-US/docs/Web/HTML/Element/figure
pub struct Figcaption {
    inner: CachedNode,
}

/// The [HTML `<figcaption>` or Figure Caption element][mdn] represents a caption or legend
/// describing the rest of the contents of its parent [`<figure>`][figure] element.
///
/// [mdn]: https://developer.mozilla.org/en-US/docs/Web/HTML/Element/figcaption
/// [figure]: https://developer.mozilla.org/en-US/docs/Web/HTML/Element/figure
pub fn figcaption(doc: &mut VirtDocument) -> (r: Figcaption)
    requires
        old(doc).wf(),
    ensures
        final(doc).wf(),
        r.memo_node() == old(doc)@.nodes.len(),
        final(doc)@.nodes == old(doc)@.with_new_node(DataView::Elem { tag: "figcaption"@, attrs: Seq::empty() }),
{
    let n = create_element(doc, "figcaption");
    Figcaption { inner: CachedNode::new(n) }
}

impl Memoized for Figcaption {
    closed spec fn memo_node(&self) -> NodeId {
        self.inner.node()
    }

    fn node(&self) -> (r: &CachedNode) {
        &self.inner
    }
}

impl Node for Figcaption {}

impl Element for Figcaption {}

impl ElementBuilder for Figcaption {}

impl HtmlElement for Figcaption {}

/// The [HTML `<figure>` (Figure With Optional Caption) element][mdn] represents self-contained
/// content, potentially with an optional caption, which is specified using the
/// ([`<figcaption>`][figcaption]) element.
///
/// [mdn]: https://developer.mozilla.org/en-US/docs/Web/HTML/Element/figure
/// [figcaption]: https://developer.mozilla.org/en-US/docs/Web/HTML/Element/figcaption
pub struct Figure {
    inner: CachedNode,
}

/// The [HTML `<figure>` (Figure With Optional Caption) element][mdn] represents self-contained
/// content, potentially with an optional caption, which is specified using the
/// ([`<figcaption>`][figcaption]) element.
///
/// [mdn]: https://developer.mozilla.org/en-US/docs/Web/HTML/Element/figure
/// [figcaption]: https://developer.mozilla.org/en-US/docs/Web/HTML/Element/figcaption
pub fn figure(doc: &mut VirtDocument) -> (r: Figure)
    requires
        old(doc).wf(),
    ensures
        final(doc).wf(),
        r.memo_node() == old(doc)@.nodes.len(),
        final(doc)@.nodes == old(doc)@.with_new_node(DataView::Elem { tag: "figure"@, attrs: Seq::empty() }),
{
    let n = create_element(doc, "figure");
    Figure { inner: CachedNode::new(n) }
}

impl Memoized for Figure {
    closed spec fn memo_node(&self) -> NodeId {
        self.inner.node()
    }

    fn node(&self) -> (r: &CachedNode) {
        &self.inner
    }
}

impl Node for Figure {}

impl Element for Figure {}

impl ElementBuilder for Figure {}

impl HtmlElement for Figure {}

/// The [HTML `<hr>` element][mdn] represents a thematic break between paragraph-level elements:
/// for example, a change of scene in a story, or a shift of topic within a section.
///
/// [mdn]: https://developer.mozilla.org/en-US/docs/Web/HTML/Element/hr
pub struct Hr {
    inner: CachedNode,
}

/// The [HTML `<hr>` element][mdn] represents a thematic break between paragraph-level elements:
/// for example, a change of scene in a story, or a shift of topic within a section.
///
/// [mdn]: https://developer.mozilla.org/en-US/docs/Web/HTML/Element/hr
pub fn hr(doc: &mut VirtDocument) -> (r: Hr)
    requires
        old(doc).wf(),
    ensures
        final(doc).wf(),
        r.memo_node() == old(doc)@.nodes.len(),
        final(doc)@.nodes == old(doc)@.with_new_node(DataView::Elem { tag: "hr"@, attrs: Seq::empty() }),
{
    let n = create_element(doc, "hr");
    Hr { inner: CachedNode::new(n) }
}

impl Memoized for Hr {
    closed spec fn memo_node(&self) -> NodeId {
        self.inner.node()
    }

    fn node(&self) -> (r: &CachedNode) {
        &self.inner
    }
}

impl Node for Hr {}

impl Element for Hr {}

impl ElementBuilder for Hr {}

impl HtmlElement for Hr {}

/// The [HTML `<li>` element][mdn] is used to represent an item in a list.
///
/// [mdn]: https://developer.mozilla.org/en-US/docs/Web/HTML/Element/li
pub struct Li {
    inner: CachedNode,
}

/// The [HTML `<li>` element][mdn] is used to represent an item in a list.
///
/// [mdn]: https://developer.mozilla.org/en-US/docs/Web/HTML/Element/li
pub fn li(doc: &mut VirtDocument) -> (r: Li)
    requires
        old(doc).wf(),
    ensures
        final(doc).wf(),
        r.memo_node() == old(doc)@.nodes.len(),
        final(doc)@.nodes == old(doc)@.with_new_node(DataView::Elem { tag: "li"@, attrs: Seq::empty() }),
{
    let n = create_element(doc, "li");
    Li { inner: CachedNode::new(n) }
}

impl Memoized for Li {
    closed spec fn memo_node(&self) -> NodeId {
        self.inner.node()
    }

    fn node(&self) -> (r: &CachedNode) {
        &self.inner
    }
}

impl Node for Li {}

impl Element for Li {}

impl ElementBuilder for Li {}

impl HtmlElement for Li {}

/// The [HTML `<ol>` element][mdn] represents an ordered list of items, typically rendered as a
/// numbered list.
///
/// [mdn]: https://developer.mozilla.org/en-US/docs/Web/HTML/Element/ol
pub struct Ol {
    inner: CachedNode,
}

/// The [HTML `<ol>` element][mdn] represents an ordered list of items, typically rendered as a
/// numbered list.
///
/// [mdn]: https://developer.mozilla.org/en-US/docs/Web/HTML/Element/ol
pub fn ol(doc: &mut VirtDocument) -> (r: Ol)
    requires
        old(doc).wf(),
    ensures
        final(doc).wf(),
        r.memo_node() == old(doc)@.nodes.len(),
        final(doc)@.nodes == old(doc)@.with_new_node(DataView::Elem { tag: "ol"@, attrs: Seq::empty() }),
{
    let n = create_element(doc, "ol");
    Ol { inner: CachedNode::new(n) }
}

impl Memoized for Ol {
    closed spec fn memo_node(&self) -> NodeId {
        self.inner.node()
    }

    fn node(&self) -> (r: &CachedNode) {
        &self.inner
    }
}

impl Node for Ol {}

impl Element for Ol {}

impl ElementBuilder for Ol {}

impl HtmlElement for Ol {}

impl Ol {
    /// Specifies that the list’s items are in reverse order. Items will be numbered from high
    /// to low.
    pub fn reversed(self, doc: &mut VirtDocument, to_set: bool) -> (r: Self)
        requires
            old(doc).wf(),
            old(doc)@.valid(self.memo_node()),
            old(doc)@.is_elem(self.memo_node()),
        ensures
            final(doc).wf(),
            final(doc)@.nodes == if to_set { old(doc)@.set_attr(self.memo_node(), "reversed"@, ""@) } else { old(doc)@.nodes },
            r == self,
    {
        if to_set {
            self.attribute(doc, "reversed", "")
        } else {
            self
        }
    }

    /// An integer to start counting from for the list items. Always an Arabic numeral (1, 2, 3,
    /// etc.), even when the numbering type is letters or Roman numerals. For example, to start
    /// numbering elements from the letter "d" or the Roman numeral "iv," use start="4".
    pub fn start(self, doc: &mut VirtDocument, to_set: u32) -> (r: Self)
        requires
            old(doc).wf(),
            old(doc)@.valid(self.memo_node()),
            old(doc)@.is_elem(self.memo_node()),
        ensures
            final(doc).wf(),
            final(doc)@.nodes == old(doc)@.set_attr(self.memo_node(), "start"@, decimal(to_set as nat)),
            r == self,
    {
        let value = decimal_string(to_set);
        self.attribute(doc, "start", value.as_str())
    }

    /// Sets the numbering type:
    ///
    /// * `a` for lowercase letters
    /// * `A` for uppercase letters
    /// * `i` for lowercase Roman numerals
    /// * `I` for uppercase Roman numerals
    /// * `1` for numbers (default)
    ///
    /// The specified type is used for the entire list unless a different type attribute is used
    /// on an enclosed <li> element.
    ///
    /// > Note: Unless the type of the list number matters (like legal or technical documents
    /// where items are referenced by their number/letter), use the CSS list-style-type property
    /// instead.
    pub fn type_(self, doc: &mut VirtDocument, to_set: &str) -> (r: Self)
        requires
            old(doc).wf(),
            old(doc)@.valid(self.memo_node()),
            old(doc)@.is_elem(self.memo_node()),
        ensures
            final(doc).wf(),
            final(doc)@.nodes == old(doc)@.set_attr(self.memo_node(), "type"@, to_set@),
            r == self,
    {
        self.attribute(doc, "type", to_set)
    }
}

/// The [HTML `<p>` element][mdn] represents a paragraph.
///
/// [mdn]: https://developer.mozilla.org/en-US/docs/Web/HTML/Element/p
pub struct P {
    inner: CachedNode,
}

/// The [HTML `<p>` element][mdn] represents a paragraph.
///
/// [mdn]: https://developer.mozilla.org/en-US/docs/Web/HTML/Element/p
pub fn p(doc: &mut VirtDocument) -> (r: P)
    requires
        old(doc).wf(),
    ensures
        final(doc).wf(),
        r.memo_node() == old(doc)@.nodes.len(),
        final(doc)@.nodes == old(doc)@.with_new_node(DataView::Elem { tag: "p"@, attrs: Seq::empty() }),
{
    let n = create_element(doc, "p");
    P { inner: CachedNode::new(n) }
}

impl Memoized for P {
    closed spec fn memo_node(&self) -> NodeId {
        self.inner.node()
    }

    fn node(&self) -> (r: &CachedNode) {
        &self.inner
    }
}

impl Node for P {}

impl Element for P {}

impl ElementBuilder for P {}

impl HtmlElement for P {}

/// The [HTML `<pre>` element][mdn] represents preformatted text which is to be presented
/// exactly as written in the HTML file.
///
/// [mdn]: https://developer.mozilla.org/en-US/docs/Web/HTML/Element/pre
pub struct Pre {
    inner: CachedNode,
}

/// The [HTML `<pre>` element][mdn] represents preformatted text which is to be presented
/// exactly as written in the HTML file.
///
/// [mdn]: https://developer.mozilla.org/en-US/docs/Web/HTML/Element/pre
pub fn pre(doc: &mut VirtDocument) -> (r: Pre)
    requires
        old(doc).wf(),
    ensures
        final(doc).wf(),
        r.memo_node() == old(doc)@.nodes.len(),
        final(doc)@.nodes == old(doc)@.with_new_node(DataView::Elem { tag: "pre"@, attrs: Seq::empty() }),
{
    let n = create_element(doc, "pre");
    Pre { inner: CachedNode::new(n) }
}

impl Memoized for Pre {
    closed spec fn memo_node(&self) -> NodeId {
        self.inner.node()
    }

    fn node(&self) -> (r: &CachedNode) {
        &self.inner
    }
}

impl Node for Pre {}

impl Element for Pre {}

impl ElementBuilder for Pre {}

impl HtmlElement for Pre {}

/// The [HTML `<ul>` element][mdn] represents an unordered list of items, typically rendered as
/// a bulleted list.
///
/// [mdn]: https://developer.mozilla.org/en-US/docs/Web/HTML/Element/ul
pub struct Ul {
    inner: CachedNode,
}

/// The [HTML `<ul>` element][mdn] represents an unordered list of items, typically rendered as
/// a bulleted list.
///
/// [mdn]: https://developer.mozilla.org/en-US/docs/Web/HTML/Element/ul
pub fn ul(doc: &mut VirtDocument) -> (r: Ul)
    requires
        old(doc).wf(),
    ensures
        final(doc).wf(),
        r.memo_node() == old(doc)@.nodes.len(),
        final(doc)@.nodes == old(doc)@.with_new_node(DataView::Elem { tag: "ul"@, attrs: Seq::empty() }),
{
    let n = create_element(doc, "ul");
    Ul { inner: CachedNode::new(n) }
}

impl Memoized for Ul {
    closed spec fn memo_node(&self) -> NodeId {
        self.inner.node()
    }

    fn node(&self) -> (r: &CachedNode) {
        &self.inner
    }
}

impl Node for Ul {}

impl Element for Ul {}

impl ElementBuilder for Ul {}

impl HtmlElement for Ul {}

} // verus!
