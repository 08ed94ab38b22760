//! Elements that define the meaning, structure, or style of a word, line, or any arbitrary
//! piece of text.

use vstd::prelude::*;
use crate::cached_node::CachedNode;
use crate::interfaces::content_categories::{FlowContent, InteractiveContent, PalpableContent, PhrasingContent};
use crate::interfaces::element::{Element, ElementBuilder};
use crate::interfaces::html_element::HtmlElement;
use crate::interfaces::node::{Memoized, Node};
use crate::rsdom::{create_element, DataView, NodeId, VirtDocument};

verus! {

/// The [HTML `<a>` element (or *anchor* element)][mdn], along with its href attribute, creates
/// a hyperlink to other web pages, files, locations within the same page, email addresses, or
/// any other URL.
///
/// [mdn]: https://developer.mozilla.org/en-US/docs/Web/HTML/Element/a
pub struct A {
    inner: CachedNode,
}

/// The [HTML `<a>` element (or *anchor* element)][mdn], along with its href attribute, creates
/// a hyperlink to other web pages, files, locations within the same page, email addresses, or
/// any other URL.
///
/// [mdn]: https://developer.mozilla.org/en-US/docs/Web/HTML/Element/a
pub fn a(doc: &mut VirtDocument) -> (r: A)
    requires
        old(doc).wf(),
    ensures
        final(doc).wf(),
        r.memo_node() == old(doc)@.nodes.len(),
        final(doc)@.nodes == old(doc)@.with_new_node(DataView::Elem { tag: "a"@, attrs: Seq::empty() }),
{
    let n = create_element(doc, "a");
    A { inner: CachedNode::new(n) }
}

impl Memoized for A {
    closed spec fn memo_node(&self) -> NodeId {
        self.inner.node()
    }

    fn node(&self) -> (r: &CachedNode) {
        &self.inner
    }
}

impl Node for A {}

impl Element for A {}

impl ElementBuilder for A {}

impl HtmlElement for A {}

impl FlowContent for A {}

impl PhrasingContent for A {}

impl InteractiveContent for A {}

impl PalpableContent for A {}

impl A {
    /// Prompts the user to save the linked URL instead of navigating to it. Can be used with or
    /// without a value:
    ///
    /// * Without a value, the browser will suggest a filename/extension, generated from various
    /// sources:
    /// * The Content-Disposition HTTP header
    /// * The final segment in the URL path
    /// * The media type (from the (Content-Type header, the start of a data: URL, or
    /// Blob.type for a blob: URL)
    /// * Defining a value suggests it as the filename. `/` and `\` characters are converted to
    /// underscores (_). Filesystems may forbid other characters in filenames, so browsers
    /// will adjust the suggested name if necessary.
    ///
    /// > Notes:
    /// > * download only works for same-origin URLs, or the blob: and data: schemes.
    /// > * If Content-Disposition has a different filename than download, the header takes
    /// >   priority. (If `Content-Disposition: inline`, Firefox prefers the header while Chrome
    /// >   prefers download.)
    pub fn download(self, doc: &mut VirtDocument, to_set: &str) -> (r: Self)
        requires
            old(doc).wf(),
            old(doc)@.valid(self.memo_node()),
            old(doc)@.is_elem(self.memo_node()),
        ensures
            final(doc).wf(),
            final(doc)@.nodes == old(doc)@.set_attr(self.memo_node(), "download"@, to_set@),
            r == self,
    {
        self.attribute(doc, "download", to_set)
    }

    /// The URL that the hyperlink points to. Links are not restricted to HTTP-based URLs —
    /// they can use any URL scheme supported by browsers:
    ///
    /// * Sections of a page with fragment URLs
    /// * Pieces of media files with media fragments
    /// * Telephone numbers with tel: URLs
    /// * Email addresses with mailto: URLs
    /// * While web browsers may not support other URL schemes, web sites can with
    /// registerProtocolHandler()
    pub fn href(self, doc: &mut VirtDocument, to_set: &str) -> (r: Self)
        requires
            old(doc).wf(),
            old(doc)@.valid(self.memo_node()),
            old(doc)@.is_elem(self.memo_node()),
        ensures
            final(doc).wf(),
            final(doc)@.nodes == old(doc)@.set_attr(self.memo_node(), "href"@, to_set@),
            r == self,
    {
        self.attribute(doc, "href", to_set)
    }

    /// Hints at the human language of the linked URL. No built-in functionality. Allowed values
    /// are the same as the global lang attribute.
    pub fn hreflang(self, doc: &mut VirtDocument, to_set: &str) -> (r: Self)
        requires
            old(doc).wf(),
            old(doc)@.valid(self.memo_node()),
            old(doc)@.is_elem(self.memo_node()),
        ensures
            final(doc).wf(),
            final(doc)@.nodes == old(doc)@.set_attr(self.memo_node(), "hreflang"@, to_set@),
            r == self,
    {
        self.attribute(doc, "hreflang", to_set)
    }

    /// A space-separated list of URLs. When the link is followed, the browser will send POST
    /// requests with the body PING to the URLs. Typically for tracking.
    pub fn ping(self, doc: &mut VirtDocument, to_set: &str) -> (r: Self)
        requires
            old(doc).wf(),
            old(doc)@.valid(self.memo_node()),
            old(doc)@.is_elem(self.memo_node()),
        ensures
            final(doc).wf(),
            final(doc)@.nodes == old(doc)@.set_attr(self.memo_node(), "ping"@, to_set@),
            r == self,
    {
        self.attribute(doc, "ping", to_set)
    }

    /// The relationship of the linked URL as space-separated link types.
    pub fn rel(self, doc: &mut VirtDocument, to_set: &str) -> (r: Self)
        requires
            old(doc).wf(),
            old(doc)@.valid(self.memo_node()),
            old(doc)@.is_elem(self.memo_node()),
        ensures
            final(doc).wf(),
            final(doc)@.nodes == old(doc)@.set_attr(self.memo_node(), "rel"@, to_set@),
            r == self,
    {
        self.attribute(doc, "rel", to_set)
    }

    /// Where to display the linked URL, as the name for a browsing context (a tab, window, or
    /// <iframe>). The following keywords have special meanings for where to load the URL:
    ///
    /// * `_self`: the current browsing context. (Default)
    /// * `_blank`: usually a new tab, but users can configure browsers to open a new window
    /// instead.
    /// * `_parent`: the parent browsing context of the current one. If no parent, behaves as
    /// _self.
    /// * `_top`: the topmost browsing context (the "highest" context that’s an ancestor of the
    /// current one). If no ancestors, behaves as _self.
    ///
    /// > Note: When using target, add rel="noreferrer noopener" to avoid exploitation of the
    /// window.opener API;
    ///
    /// > Note: Linking to another page with target="_blank" will run the new page in the same
    /// process as your page. If the new page executes JavaScript, your page's performance may
    /// suffer. This can also be avoided by using rel="noreferrer noopener".
    pub fn target(self, doc: &mut VirtDocument, to_set: &str) -> (r: Self)
        requires
            old(doc).wf(),
            old(doc)@.valid(self.memo_node()),
            old(doc)@.is_elem(self.memo_node()),
        ensures
            final(doc).wf(),
            final(doc)@.nodes == old(doc)@.set_attr(self.memo_node(), "target"@, to_set@),
            r == self,
    {
        self.attribute(doc, "target", to_set)
    }

    /// Hints at the linked URL’s format with a MIME type. No built-in functionality.
    pub fn type_(self, doc: &mut VirtDocument, to_set: &str) -> (r: Self)
        requires
            old(doc).wf(),
            old(doc)@.valid(self.memo_node()),
            old(doc)@.is_elem(self.memo_node()),
        ensures
            final(doc).wf(),
            final(doc)@.nodes == old(doc)@.set_attr(self.memo_node(), "type"@, to_set@),
            r == self,
    {
        self.attribute(doc, "type", to_set)
    }
}

/// The [HTML Abbreviation element (`<abbr>`)][mdn] represents an abbreviation or acronym; the
/// optional [`title`][title] attribute can provide an expansion or description for the
/// abbreviation.
///
/// The title attribute has a specific semantic meaning when used with the <abbr> element; it
/// must contain a full human-readable description or expansion of the abbreviation. This text
/// is often presented by browsers as a tooltip when the mouse cursor is hovered over the
/// element.
///
/// [mdn]: https://developer.mozilla.org/en-US/docs/Web/HTML/Element/abbr
/// [title]: https://developer.mozilla.org/en-US/docs/Web/HTML/Global_attributes#attr-title
pub struct Abbr {
    inner: CachedNode,
}

/// The [HTML Abbreviation element (`<abbr>`)][mdn] represents an abbreviation or acronym; the
/// optional [`title`][title] attribute can provide an expansion or description for the
/// abbreviation.
///
/// The title attribute has a specific semantic meaning when used with the <abbr> element; it
/// must contain a full human-readable description or expansion of the abbreviation. This text
/// is often presented by browsers as a tooltip when the mouse cursor is hovered over the
/// element.
///
/// [mdn]: https://developer.mozilla.org/en-US/docs/Web/HTML/Element/abbr
/// [title]: https://developer.mozilla.org/en-US/docs/Web/HTML/Global_attributes#attr-title
pub fn abbr(doc: &mut VirtDocument) -> (r: Abbr)
    requires
        old(doc).wf(),
    ensures
        final(doc).wf(),
        r.memo_node() == old(doc)@.nodes.len(),
        final(doc)@.nodes == old(doc)@.with_new_node(DataView::Elem { tag: "abbr"@, attrs: Seq::empty() }),
{
    let n = create_element(doc, "abbr");
    Abbr { inner: CachedNode::new(n) }
}

impl Memoized for Abbr {
    closed spec fn memo_node(&self) -> NodeId {
        self.inner.node()
    }

    fn node(&self) -> (r: &CachedNode) {
        &self.inner
    }
}

impl Node for Abbr {}

impl Element for Abbr {}

impl ElementBuilder for Abbr {}

impl HtmlElement for Abbr {}

impl FlowContent for Abbr {}

impl PhrasingContent for Abbr {}

impl PalpableContent for Abbr {}

/// The [HTML Bring Attention To element (`<b>`)][mdn] is used to draw the reader's attention to
/// the element's contents, which are not otherwise granted special importance.
///
/// [mdn]: https://developer.mozilla.org/en-US/docs/Web/HTML/Element/b
pub struct B {
    inner: CachedNode,
}

/// The [HTML Bring Attention To element (`<b>`)][mdn] is used to draw the reader's attention to
/// the element's contents, which are not otherwise granted special importance.
///
/// [mdn]: https://developer.mozilla.org/en-US/docs/Web/HTML/Element/b
pub fn b(doc: &mut VirtDocument) -> (r: B)
    requires
        old(doc).wf(),
    ensures
        final(doc).wf(),
        r.memo_node() == old(doc)@.nodes.len(),
        final(doc)@.nodes == old(doc)@.with_new_node(DataView::Elem { tag: "b"@, attrs: Seq::empty() }),
{
    let n = create_element(doc, "b");
    B { inner: CachedNode::new(n) }
}

impl Memoized for B {
    closed spec fn memo_node(&self) -> NodeId {
        self.inner.node()
    }

    fn node(&self) -> (r: &CachedNode) {
        &self.inner
    }
}

impl Node for B {}

impl Element for B {}

impl ElementBuilder for B {}

impl HtmlElement for B {}

impl FlowContent for B {}

impl PhrasingContent for B {}

impl PalpableContent for B {}

/// The [HTML Bidirectional Isolate element (`<bdi>`)][mdn] tells the browser's bidirectional
/// algorithm to treat the text it contains in isolation from its surrounding text.
///
/// [mdn]: https://developer.mozilla.org/en-US/docs/Web/HTML/Element/bdi
pub struct Bdi {
    inner: CachedNode,
}

/// The [HTML Bidirectional Isolate element (`<bdi>`)][mdn] tells the browser's bidirectional
/// algorithm to treat the text it contains in isolation from its surrounding text.
///
/// [mdn]: https://developer.mozilla.org/en-US/docs/Web/HTML/Element/bdi
pub fn bdi(doc: &mut VirtDocument) -> (r: Bdi)
    requires
        old(doc).wf(),
    ensures
        final(doc).wf(),
        r.memo_node() == old(doc)@.nodes.len(),
        final(doc)@.nodes == old(doc)@.with_new_node(DataView::Elem { tag: "bdi"@, attrs: Seq::empty() }),
{
    let n = create_element(doc, "bdi");
    Bdi { inner: CachedNode::new(n) }
}

impl Memoized for Bdi {
    closed spec fn memo_node(&self) -> NodeId {
        self.inner.node()
    }

    fn node(&self) -> (r: &CachedNode) {
        &self.inner
    }
}

impl Node for Bdi {}

impl Element for Bdi {}

impl ElementBuilder for Bdi {}

impl HtmlElement for Bdi {}

impl FlowContent for Bdi {}

impl PhrasingContent for Bdi {}

impl PalpableContent for Bdi {}

/// The [HTML Bidirectional Text Override element (`<bdo>`)][mdn] overrides the current
/// directionality of text, so that the text within is rendered in a different direction.
///
/// [mdn]: https://developer.mozilla.org/en-US/docs/Web/HTML/Element/bdo
pub struct Bdo {
    inner: CachedNode,
}

/// The [HTML Bidirectional Text Override element (`<bdo>`)][mdn] overrides the current
/// directionality of text, so that the text within is rendered in a different direction.
///
/// [mdn]: https://developer.mozilla.org/en-US/docs/Web/HTML/Element/bdo
pub fn bdo(doc: &mut VirtDocument) -> (r: Bdo)
    requires
        old(doc).wf(),
    ensures
        final(doc).wf(),
        r.memo_node() == old(doc)@.nodes.len(),
        final(doc)@.nodes == old(doc)@.with_new_node(DataView::Elem { tag: "bdo"@, attrs: Seq::empty() }),
{
    let n = create_element(doc, "bdo");
    Bdo { inner: CachedNode::new(n) }
}

impl Memoized for Bdo {
    closed spec fn memo_node(&self) -> NodeId {
        self.inner.node()
    }

    fn node(&self) -> (r: &CachedNode) {
        &self.inner
    }
}

impl Node for Bdo {}

impl Element for Bdo {}

impl ElementBuilder for Bdo {}

impl HtmlElement for Bdo {}

impl FlowContent for Bdo {}

impl PhrasingContent for Bdo {}

impl PalpableContent for Bdo {}

impl Bdo {
    /// The direction in which text should be rendered in this element's contents. Possible
    /// values are:
    ///
    /// * `ltr`: Indicates that the text should go in a left-to-right direction.
    /// * `rtl`: Indicates that the text should go in a right-to-left direction.
    pub fn dir(self, doc: &mut VirtDocument, to_set: &str) -> (r: Self)
        requires
            old(doc).wf(),
            old(doc)@.valid(self.memo_node()),
            old(doc)@.is_elem(self.memo_node()),
        ensures
            final(doc).wf(),
            final(doc)@.nodes == old(doc)@.set_attr(self.memo_node(), "dir"@, to_set@),
            r == self,
    {
        self.attribute(doc, "dir", to_set)
    }
}

/// The [HTML `<br>` element][mdn] produces a line break in text (carriage-return). It is useful
/// for writing a poem or an address, where the division of lines is significant.
///
/// [mdn]: https://developer.mozilla.org/en-US/docs/Web/HTML/Element/br
pub struct Br {
    inner: CachedNode,
}

/// The [HTML `<br>` element][mdn] produces a line break in text (carriage-return). It is useful
/// for writing a poem or an address, where the division of lines is significant.
///
/// [mdn]: https://developer.mozilla.org/en-US/docs/Web/HTML/Element/br
pub fn br(doc: &mut VirtDocument) -> (r: Br)
    requires
        old(doc).wf(),
    ensures
        final(doc).wf(),
        r.memo_node() == old(doc)@.nodes.len(),
        final(doc)@.nodes == old(doc)@.with_new_node(DataView::Elem { tag: "br"@, attrs: Seq::empty() }),
{
    let n = create_element(doc, "br");
    Br { inner: CachedNode::new(n) }
}

impl Memoized for Br {
    closed spec fn memo_node(&self) -> NodeId {
        self.inner.node()
    }

    fn node(&self) -> (r: &CachedNode) {
        &self.inner
    }
}

impl Node for Br {}

impl Element for Br {}

impl ElementBuilder for Br {}

impl HtmlElement for Br {}

impl FlowContent for Br {}

impl PhrasingContent for Br {}

/// The [HTML Citation element (`<cite>`)][mdn] is used to describe a reference to a cited
/// creative work, and must include the title of that work.
///
/// [mdn]: https://developer.mozilla.org/en-US/docs/Web/HTML/Element/cite
pub struct Cite {
    inner: CachedNode,
}

/// The [HTML Citation element (`<cite>`)][mdn] is used to describe a reference to a cited
/// creative work, and must include the title of that work.
///
/// [mdn]: https://developer.mozilla.org/en-US/docs/Web/HTML/Element/cite
pub fn cite(doc: &mut VirtDocument) -> (r: Cite)
    requires
        old(doc).wf(),
    ensures
        final(doc).wf(),
        r.memo_node() == old(doc)@.nodes.len(),
        final(doc)@.nodes == old(doc)@.with_new_node(DataView::Elem { tag: "cite"@, attrs: Seq::empty() }),
{
    let n = create_element(doc, "cite");
    Cite { inner: CachedNode::new(n) }
}

impl Memoized for Cite {
    closed spec fn memo_node(&self) -> NodeId {
        self.inner.node()
    }

    fn node(&self) -> (r: &CachedNode) {
        &self.inner
    }
}

impl Node for Cite {}

impl Element for Cite {}

impl ElementBuilder for Cite {}

impl HtmlElement for Cite {}

impl FlowContent for Cite {}

impl PhrasingContent for Cite {}

impl PalpableContent for Cite {}

/// The [HTML `<code>` element][mdn] displays its contents styled in a fashion intended to
/// indicate that the text is a short fragment of computer code.
///
/// [mdn]: https://developer.mozilla.org/en-US/docs/Web/HTML/Element/code
pub struct Code {
    inner: CachedNode,
}

/// The [HTML `<code>` element][mdn] displays its contents styled in a fashion intended to
/// indicate that the text is a short fragment of computer code.
///
/// [mdn]: https://developer.mozilla.org/en-US/docs/Web/HTML/Element/code
pub fn code(doc: &mut VirtDocument) -> (r: Code)
    requires
        old(doc).wf(),
    ensures
        final(doc).wf(),
        r.memo_node() == old(doc)@.nodes.len(),
        final(doc)@.nodes == old(doc)@.with_new_node(DataView::Elem { tag: "code"@, attrs: Seq::empty() }),
{
    let n = create_element(doc, "code");
    Code { inner: CachedNode::new(n) }
}

impl Memoized for Code {
    closed spec fn memo_node(&self) -> NodeId {
        self.inner.node()
    }

    fn node(&self) -> (r: &CachedNode) {
        &self.inner
    }
}

impl Node for Code {}

impl Element for Code {}

impl ElementBuilder for Code {}

impl HtmlElement for Code {}

impl FlowContent for Code {}

impl PhrasingContent for Code {}

impl PalpableContent for Code {}

/// The [HTML `<data>` element][mdn] links a given content with a machine-readable translation.
/// If the content is time- or date-related, the [`<time>`][time] element must be used.
///
/// [mdn]: https://developer.mozilla.org/en-US/docs/Web/HTML/Element/data
/// [time]: https://developer.mozilla.org/en-US/docs/Web/HTML/Element/time
pub struct Data {
    inner: CachedNode,
}

/// The [HTML `<data>` element][mdn] links a given content with a machine-readable translation.
/// If the content is time- or date-related, the [`<time>`][time] element must be used.
///
/// [mdn]: https://developer.mozilla.org/en-US/docs/Web/HTML/Element/data
/// [time]: https://developer.mozilla.org/en-US/docs/Web/HTML/Element/time
pub fn data(doc: &mut VirtDocument) -> (r: Data)
    requires
        old(doc).wf(),
    ensures
        final(doc).wf(),
        r.memo_node() == old(doc)@.nodes.len(),
        final(doc)@.nodes == old(doc)@.with_new_node(DataView::Elem { tag: "data"@, attrs: Seq::empty() }),
{
    let n = create_element(doc, "data");
    Data { inner: CachedNode::new(n) }
}

impl Memoized for Data {
    closed spec fn memo_node(&self) -> NodeId {
        self.inner.node()
    }

    fn node(&self) -> (r: &CachedNode) {
        &self.inner
    }
}

impl Node for Data {}

impl Element for Data {}

impl ElementBuilder for Data {}

impl HtmlElement for Data {}

impl FlowContent for Data {}

impl PhrasingContent for Data {}

impl PalpableContent for Data {}

impl Data {
    /// This attribute specifies the machine-readable translation of the content of the element.
    pub fn value(self, doc: &mut VirtDocument, to_set: &str) -> (r: Self)
        requires
            old(doc).wf(),
            old(doc)@.valid(self.memo_node()),
            old(doc)@.is_elem(self.memo_node()),
        ensures
            final(doc).wf(),
            final(doc)@.nodes == old(doc)@.set_attr(self.memo_node(), "value"@, to_set@),
            r == self,
    {
        self.attribute(doc, "value", to_set)
    }
}

/// The [HTML Definition element (`<dfn>`)][mdn] is used to indicate the term being defined
/// within the context of a definition phrase or sentence.
///
/// [mdn]: https://developer.mozilla.org/en-US/docs/Web/HTML/Element/dfn
pub struct Dfn {
    inner: CachedNode,
}

/// The [HTML Definition element (`<dfn>`)][mdn] is used to indicate the term being defined
/// within the context of a definition phrase or sentence.
///
/// [mdn]: https://developer.mozilla.org/en-US/docs/Web/HTML/Element/dfn
pub fn dfn(doc: &mut VirtDocument) -> (r: Dfn)
    requires
        old(doc).wf(),
    ensures
        final(doc).wf(),
        r.memo_node() == old(doc)@.nodes.len(),
        final(doc)@.nodes == old(doc)@.with_new_node(DataView::Elem { tag: "dfn"@, attrs: Seq::empty() }),
{
    let n = create_element(doc, "dfn");
    Dfn { inner: CachedNode::new(n) }
}

impl Memoized for Dfn {
    closed spec fn memo_node(&self) -> NodeId {
        self.inner.node()
    }

    fn node(&self) -> (r: &CachedNode) {
        &self.inner
    }
}

impl Node for Dfn {}

impl Element for Dfn {}

impl ElementBuilder for Dfn {}

impl HtmlElement for Dfn {}

impl FlowContent for Dfn {}

impl PhrasingContent for Dfn {}

impl PalpableContent for Dfn {}

/// The [HTML `<em>` element][mdn] marks text that has stress emphasis. The `<em>` element can
/// be nested, with each level of nesting indicating a greater degree of emphasis.
///
/// [mdn]: https://developer.mozilla.org/en-US/docs/Web/HTML/Element/em
pub struct Em {
    inner: CachedNode,
}

/// The [HTML `<em>` element][mdn] marks text that has stress emphasis. The `<em>` element can
/// be nested, with each level of nesting indicating a greater degree of emphasis.
///
/// [mdn]: https://developer.mozilla.org/en-US/docs/Web/HTML/Element/em
pub fn em(doc: &mut VirtDocument) -> (r: Em)
    requires
        old(doc).wf(),
    ensures
        final(doc).wf(),
        r.memo_node() == old(doc)@.nodes.len(),
        final(doc)@.nodes == old(doc)@.with_new_node(DataView::Elem { tag: "em"@, attrs: Seq::empty() }),
{
    let n = create_element(doc, "em");
    Em { inner: CachedNode::new(n) }
}

impl Memoized for Em {
    closed spec fn memo_node(&self) -> NodeId {
        self.inner.node()
    }

    fn node(&self) -> (r: &CachedNode) {
        &self.inner
    }
}

impl Node for Em {}

impl Element for Em {}

impl ElementBuilder for Em {}

impl HtmlElement for Em {}

impl FlowContent for Em {}

impl PhrasingContent for Em {}

impl PalpableContent for Em {}

/// The [HTML `<i>` element][mdn] represents a range of text that is set off from the normal
/// text for some reason. Some examples include technical terms, foreign language phrases, or
/// fictional character thoughts. It is typically displayed in italic type.
///
/// [mdn]: https://developer.mozilla.org/en-US/docs/Web/HTML/Element/i
pub struct I {
    inner: CachedNode,
}

/// The [HTML `<i>` element][mdn] represents a range of text that is set off from the normal
/// text for some reason. Some examples include technical terms, foreign language phrases, or
/// fictional character thoughts. It is typically displayed in italic type.
///
/// [mdn]: https://developer.mozilla.org/en-US/docs/Web/HTML/Element/i
pub fn i(doc: &mut VirtDocument) -> (r: I)
    requires
        old(doc).wf(),
    ensures
        final(doc).wf(),
        r.memo_node() == old(doc)@.nodes.len(),
        final(doc)@.nodes == old(doc)@.with_new_node(DataView::Elem { tag: "i"@, attrs: Seq::empty() }),
{
    let n = create_element(doc, "i");
    I { inner: CachedNode::new(n) }
}

impl Memoized for I {
    closed spec fn memo_node(&self) -> NodeId {
        self.inner.node()
    }

    fn node(&self) -> (r: &CachedNode) {
        &self.inner
    }
}

impl Node for I {}

impl Element for I {}

impl ElementBuilder for I {}

impl HtmlElement for I {}

impl FlowContent for I {}

impl PhrasingContent for I {}

impl PalpableContent for I {}

/// The [HTML Keyboard Input element (`<kbd>`)][mdn] represents a span of inline text denoting
/// textual user input from a keyboard, voice input, or any other text entry device.
///
/// [mdn]: https://developer.mozilla.org/en-US/docs/Web/HTML/Element/kbd
pub struct Kbd {
    inner: CachedNode,
}

/// The [HTML Keyboard Input element (`<kbd>`)][mdn] represents a span of inline text denoting
/// textual user input from a keyboard, voice input, or any other text entry device.
///
/// [mdn]: https://developer.mozilla.org/en-US/docs/Web/HTML/Element/kbd
pub fn kbd(doc: &mut VirtDocument) -> (r: Kbd)
    requires
        old(doc).wf(),
    ensures
        final(doc).wf(),
        r.memo_node() == old(doc)@.nodes.len(),
        final(doc)@.nodes == old(doc)@.with_new_node(DataView::Elem { tag: "kbd"@, attrs: Seq::empty() }),
{
    let n = create_element(doc, "kbd");
    Kbd { inner: CachedNode::new(n) }
}

impl Memoized for Kbd {
    closed spec fn memo_node(&self) -> NodeId {
        self.inner.node()
    }

    fn node(&self) -> (r: &CachedNode) {
        &self.inner
    }
}

impl Node for Kbd {}

impl Element for Kbd {}

impl ElementBuilder for Kbd {}

impl HtmlElement for Kbd {}

impl FlowContent for Kbd {}

impl PhrasingContent for Kbd {}

impl PalpableContent for Kbd {}

/// The [HTML Mark Text element (`<mark>`)][mdn] represents text which is marked or highlighted
/// for reference or notation purposes, due to the marked passage's relevance or importance in
/// the enclosing context.
///
/// [mdn]: https://developer.mozilla.org/en-US/docs/Web/HTML/Element/mark
pub struct Mark {
    inner: CachedNode,
}

/// The [HTML Mark Text element (`<mark>`)][mdn] represents text which is marked or highlighted
/// for reference or notation purposes, due to the marked passage's relevance or importance in
/// the enclosing context.
///
/// [mdn]: https://developer.mozilla.org/en-US/docs/Web/HTML/Element/mark
pub fn mark(doc: &mut VirtDocument) -> (r: Mark)
    requires
        old(doc).wf(),
    ensures
        final(doc).wf(),
        r.memo_node() == old(doc)@.nodes.len(),
        final(doc)@.nodes == old(doc)@.with_new_node(DataView::Elem { tag: "mark"@, attrs: Seq::empty() }),
{
    let n = create_element(doc, "mark");
    Mark { inner: CachedNode::new(n) }
}

impl Memoized for Mark {
    closed spec fn memo_node(&self) -> NodeId {
        self.inner.node()
    }

    fn node(&self) -> (r: &CachedNode) {
        &self.inner
    }
}

impl Node for Mark {}

impl Element for Mark {}

impl ElementBuilder for Mark {}

impl HtmlElement for Mark {}

impl FlowContent for Mark {}

impl PhrasingContent for Mark {}

impl PalpableContent for Mark {}

/// The [HTML `<q>` element][mdn]  indicates that the enclosed text is a short inline quotation.
/// Most modern browsers implement this by surrounding the text in quotation marks.
///
/// [mdn]: https://developer.mozilla.org/en-US/docs/Web/HTML/Element/q
pub struct Q {
    inner: CachedNode,
}

/// The [HTML `<q>` element][mdn]  indicates that the enclosed text is a short inline quotation.
/// Most modern browsers implement this by surrounding the text in quotation marks.
///
/// [mdn]: https://developer.mozilla.org/en-US/docs/Web/HTML/Element/q
pub fn q(doc: &mut VirtDocument) -> (r: Q)
    requires
        old(doc).wf(),
    ensures
        final(doc).wf(),
        r.memo_node() == old(doc)@.nodes.len(),
        final(doc)@.nodes == old(doc)@.with_new_node(DataView::Elem { tag: "q"@, attrs: Seq::empty() }),
{
    let n = create_element(doc, "q");
    Q { inner: CachedNode::new(n) }
}

impl Memoized for Q {
    closed spec fn memo_node(&self) -> NodeId {
        self.inner.node()
    }

    fn node(&self) -> (r: &CachedNode) {
        &self.inner
    }
}

impl Node for Q {}

impl Element for Q {}

impl ElementBuilder for Q {}

impl HtmlElement for Q {}

impl FlowContent for Q {}

impl PhrasingContent for Q {}

impl PalpableContent for Q {}

impl Q {
    /// The value of this attribute is a URL that designates a source document or message for
    /// the information quoted. This attribute is intended to point to information explaining
    /// the context or the reference for the quote.
    pub fn cite(self, doc: &mut VirtDocument, to_set: &str) -> (r: Self)
        requires
            old(doc).wf(),
            old(doc)@.valid(self.memo_node()),
            old(doc)@.is_elem(self.memo_node()),
        ensures
            final(doc).wf(),
            final(doc)@.nodes == old(doc)@.set_attr(self.memo_node(), "cite"@, to_set@),
            r == self,
    {
        self.attribute(doc, "cite", to_set)
    }
}

/// The [HTML Ruby Base (`<rb>`) element][mdn] is used to delimit the base text component of
/// a [`<ruby>`][ruby] annotation, i.e. the text that is being annotated.
///
/// [mdn]: https://developer.mozilla.org/en-US/docs/Web/HTML/Element/rb
/// [ruby]: https://developer.mozilla.org/en-US/docs/Web/HTML/Element/ruby
pub struct Rb {
    inner: CachedNode,
}

/// The [HTML Ruby Base (`<rb>`) element][mdn] is used to delimit the base text component of
/// a [`<ruby>`][ruby] annotation, i.e. the text that is being annotated.
///
/// [mdn]: https://developer.mozilla.org/en-US/docs/Web/HTML/Element/rb
/// [ruby]: https://developer.mozilla.org/en-US/docs/Web/HTML/Element/ruby
pub fn rb(doc: &mut VirtDocument) -> (r: Rb)
    requires
        old(doc).wf(),
    ensures
        final(doc).wf(),
        r.memo_node() == old(doc)@.nodes.len(),
        final(doc)@.nodes == old(doc)@.with_new_node(DataView::Elem { tag: "rb"@, attrs: Seq::empty() }),
{
    let n = create_element(doc, "rb");
    Rb { inner: CachedNode::new(n) }
}

impl Memoized for Rb {
    closed spec fn memo_node(&self) -> NodeId {
        self.inner.node()
    }

    fn node(&self) -> (r: &CachedNode) {
        &self.inner
    }
}

impl Node for Rb {}

impl Element for Rb {}

impl ElementBuilder for Rb {}

impl HtmlElement for Rb {}

/// The [HTML Ruby Fallback Parenthesis (`<rp>`) element][mdn] is used to provide fall-back
/// parentheses for browsers that do not support display of ruby annotations using the
/// [`<ruby>`][ruby] element.
///
/// [mdn]: https://developer.mozilla.org/en-US/docs/Web/HTML/Element/rp
/// [ruby]: https://developer.mozilla.org/en-US/docs/Web/HTML/Element/ruby
pub struct Rp {
    inner: CachedNode,
}

/// The [HTML Ruby Fallback Parenthesis (`<rp>`) element][mdn] is used to provide fall-back
/// parentheses for browsers that do not support display of ruby annotations using the
/// [`<ruby>`][ruby] element.
///
/// [mdn]: https://developer.mozilla.org/en-US/docs/Web/HTML/Element/rp
/// [ruby]: https://developer.mozilla.org/en-US/docs/Web/HTML/Element/ruby
pub fn rp(doc: &mut VirtDocument) -> (r: Rp)
    requires
        old(doc).wf(),
    ensures
        final(doc).wf(),
        r.memo_node() == old(doc)@.nodes.len(),
        final(doc)@.nodes == old(doc)@.with_new_node(DataView::Elem { tag: "rp"@, attrs: Seq::empty() }),
{
    let n = create_element(doc, "rp");
    Rp { inner: CachedNode::new(n) }
}

impl Memoized for Rp {
    closed spec fn memo_node(&self) -> NodeId {
        self.inner.node()
    }

    fn node(&self) -> (r: &CachedNode) {
        &self.inner
    }
}

impl Node for Rp {}

impl Element for Rp {}

impl ElementBuilder for Rp {}

impl HtmlElement for Rp {}

/// The [HTML Ruby Text (`<rt>`) element][mdn] specifies the ruby text component of a ruby
/// annotation, which is used to provide pronunciation, translation, or transliteration
/// information for East Asian typography. The `<rt>` element must always be contained within a
/// [`<ruby>`][ruby] element.
///
/// [mdn]: https://developer.mozilla.org/en-US/docs/Web/HTML/Element/rt
/// [ruby]: https://developer.mozilla.org/en-US/docs/Web/HTML/Element/ruby
pub struct Rt {
    inner: CachedNode,
}

/// The [HTML Ruby Text (`<rt>`) element][mdn] specifies the ruby text component of a ruby
/// annotation, which is used to provide pronunciation, translation, or transliteration
/// information for East Asian typography. The `<rt>` element must always be contained within a
/// [`<ruby>`][ruby] element.
///
/// [mdn]: https://developer.mozilla.org/en-US/docs/Web/HTML/Element/rt
/// [ruby]: https://developer.mozilla.org/en-US/docs/Web/HTML/Element/ruby
pub fn rt(doc: &mut VirtDocument) -> (r: Rt)
    requires
        old(doc).wf(),
    ensures
        final(doc).wf(),
        r.memo_node() == old(doc)@.nodes.len(),
        final(doc)@.nodes == old(doc)@.with_new_node(DataView::Elem { tag: "rt"@, attrs: Seq::empty() }),
{
    let n = create_element(doc, "rt");
    Rt { inner: CachedNode::new(n) }
}

impl Memoized for Rt {
    closed spec fn memo_node(&self) -> NodeId {
        self.inner.node()
    }

    fn node(&self) -> (r: &CachedNode) {
        &self.inner
    }
}

impl Node for Rt {}

impl Element for Rt {}

impl ElementBuilder for Rt {}

impl HtmlElement for Rt {}

impl PhrasingContent for Rt {}

/// The [HTML Ruby Text Container (`<rtc>`) element][mdn] embraces semantic annotations of
/// characters presented in a ruby of [`<rb>`][rb] elements used inside of [`<ruby>`][ruby]
/// element. [`<rb>`][rb] elements can have both pronunciation ([`<rt>`][rt]) and semantic
/// ([`<rtc>`][rtc]) annotations.
///
/// [mdn]: https://developer.mozilla.org/en-US/docs/Web/HTML/Element/rtc
/// [rb]: https://developer.mozilla.org/en-US/docs/Web/HTML/Element/rb
/// [ruby]: https://developer.mozilla.org/en-US/docs/Web/HTML/Element/ruby
/// [rt]: https://developer.mozilla.org/en-US/docs/Web/HTML/Element/rt
/// [rtc]: https://developer.mozilla.org/en-US/docs/Web/HTML/Element/rtc
pub struct Rtc {
    inner: CachedNode,
}

/// The [HTML Ruby Text Container (`<rtc>`) element][mdn] embraces semantic annotations of
/// characters presented in a ruby of [`<rb>`][rb] elements used inside of [`<ruby>`][ruby]
/// element. [`<rb>`][rb] elements can have both pronunciation ([`<rt>`][rt]) and semantic
/// ([`<rtc>`][rtc]) annotations.
///
/// [mdn]: https://developer.mozilla.org/en-US/docs/Web/HTML/Element/rtc
/// [rb]: https://developer.mozilla.org/en-US/docs/Web/HTML/Element/rb
/// [ruby]: https://developer.mozilla.org/en-US/docs/Web/HTML/Element/ruby
/// [rt]: https://developer.mozilla.org/en-US/docs/Web/HTML/Element/rt
/// [rtc]: https://developer.mozilla.org/en-US/docs/Web/HTML/Element/rtc
pub fn rtc(doc: &mut VirtDocument) -> (r: Rtc)
    requires
        old(doc).wf(),
    ensures
        final(doc).wf(),
        r.memo_node() == old(doc)@.nodes.len(),
        final(doc)@.nodes == old(doc)@.with_new_node(DataView::Elem { tag: "rtc"@, attrs: Seq::empty() }),
{
    let n = create_element(doc, "rtc");
    Rtc { inner: CachedNode::new(n) }
}

impl Memoized for Rtc {
    closed spec fn memo_node(&self) -> NodeId {
        self.inner.node()
    }

    fn node(&self) -> (r: &CachedNode) {
        &self.inner
    }
}

impl Node for Rtc {}

impl Element for Rtc {}

impl ElementBuilder for Rtc {}

impl HtmlElement for Rtc {}

impl PhrasingContent for Rtc {}

/// The [HTML `<ruby>` element][mdn] represents a ruby annotation. Ruby annotations are for
/// showing pronunciation of East Asian characters.
///
/// [mdn]: https://developer.mozilla.org/en-US/docs/Web/HTML/Element/ruby
pub struct Ruby {
    inner: CachedNode,
}

/// The [HTML `<ruby>` element][mdn] represents a ruby annotation. Ruby annotations are for
/// showing pronunciation of East Asian characters.
///
/// [mdn]: https://developer.mozilla.org/en-US/docs/Web/HTML/Element/ruby
pub fn ruby(doc: &mut VirtDocument) -> (r: Ruby)
    requires
        old(doc).wf(),
    ensures
        final(doc).wf(),
        r.memo_node() == old(doc)@.nodes.len(),
        final(doc)@.nodes == old(doc)@.with_new_node(DataView::Elem { tag: "ruby"@, attrs: Seq::empty() }),
{
    let n = create_element(doc, "ruby");
    Ruby { inner: CachedNode::new(n) }
}

impl Memoized for Ruby {
    closed spec fn memo_node(&self) -> NodeId {
        self.inner.node()
    }

    fn node(&self) -> (r: &CachedNode) {
        &self.inner
    }
}

impl Node for Ruby {}

impl Element for Ruby {}

impl ElementBuilder for Ruby {}

impl HtmlElement for Ruby {}

impl FlowContent for Ruby {}

impl PhrasingContent for Ruby {}

impl PalpableContent for Ruby {}

/// The [HTML `<s>` element][mdn] renders text with a strikethrough, or a line through it. Use
/// the `<s>` element to represent things that are no longer relevant or no longer accurate.
/// However, `<s>` is not appropriate when indicating document edits; for that, use the
/// [`<del>`][del] and [`<ins>`][ins] elements, as appropriate.
///
/// [mdn]: https://developer.mozilla.org/en-US/docs/Web/HTML/Element/s
/// [del]: https://developer.mozilla.org/en-US/docs/Web/HTML/Element/del
/// [ins]: https://developer.mozilla.org/en-US/docs/Web/HTML/Element/ins
pub struct S {
    inner: CachedNode,
}

/// The [HTML `<s>` element][mdn] renders text with a strikethrough, or a line through it. Use
/// the `<s>` element to represent things that are no longer relevant or no longer accurate.
/// However, `<s>` is not appropriate when indicating document edits; for that, use the
/// [`<del>`][del] and [`<ins>`][ins] elements, as appropriate.
///
/// [mdn]: https://developer.mozilla.org/en-US/docs/Web/HTML/Element/s
/// [del]: https://developer.mozilla.org/en-US/docs/Web/HTML/Element/del
/// [ins]: https://developer.mozilla.org/en-US/docs/Web/HTML/Element/ins
pub fn s(doc: &mut VirtDocument) -> (r: S)
    requires
        old(doc).wf(),
    ensures
        final(doc).wf(),
        r.memo_node() == old(doc)@.nodes.len(),
        final(doc)@.nodes == old(doc)@.with_new_node(DataView::Elem { tag: "s"@, attrs: Seq::empty() }),
{
    let n = create_element(doc, "s");
    S { inner: CachedNode::new(n) }
}

impl Memoized for S {
    closed spec fn memo_node(&self) -> NodeId {
        self.inner.node()
    }

    fn node(&self) -> (r: &CachedNode) {
        &self.inner
    }
}

impl Node for S {}

impl Element for S {}

impl ElementBuilder for S {}

impl HtmlElement for S {}

impl PhrasingContent for S {}

impl FlowContent for S {}

/// The [HTML Sample Element (`<samp>`)][mdn] is used to enclose inline text which represents
/// sample (or quoted) output from a computer program.
///
/// [mdn]: https://developer.mozilla.org/en-US/docs/Web/HTML/Element/samp
pub struct Samp {
    inner: CachedNode,
}

/// The [HTML Sample Element (`<samp>`)][mdn] is used to enclose inline text which represents
/// sample (or quoted) output from a computer program.
///
/// [mdn]: https://developer.mozilla.org/en-US/docs/Web/HTML/Element/samp
pub fn samp(doc: &mut VirtDocument) -> (r: Samp)
    requires
        old(doc).wf(),
    ensures
        final(doc).wf(),
        r.memo_node() == old(doc)@.nodes.len(),
        final(doc)@.nodes == old(doc)@.with_new_node(DataView::Elem { tag: "samp"@, attrs: Seq::empty() }),
{
    let n = create_element(doc, "samp");
    Samp { inner: CachedNode::new(n) }
}

impl Memoized for Samp {
    closed spec fn memo_node(&self) -> NodeId {
        self.inner.node()
    }

    fn node(&self) -> (r: &CachedNode) {
        &self.inner
    }
}

impl Node for Samp {}

impl Element for Samp {}

impl ElementBuilder for Samp {}

impl HtmlElement for Samp {}

impl FlowContent for Samp {}

impl PhrasingContent for Samp {}

impl PalpableContent for Samp {}

/// The [HTML `<small>` element][mdn] represents side-comments and small print, like copyright
/// and legal text, independent of its styled presentation. By default, it renders text within
/// it one font-size small, such as from `small` to `x-small`.
///
/// [mdn]: https://developer.mozilla.org/en-US/docs/Web/HTML/Element/small
pub struct Small {
    inner: CachedNode,
}

/// The [HTML `<small>` element][mdn] represents side-comments and small print, like copyright
/// and legal text, independent of its styled presentation. By default, it renders text within
/// it one font-size small, such as from `small` to `x-small`.
///
/// [mdn]: https://developer.mozilla.org/en-US/docs/Web/HTML/Element/small
pub fn small(doc: &mut VirtDocument) -> (r: Small)
    requires
        old(doc).wf(),
    ensures
        final(doc).wf(),
        r.memo_node() == old(doc)@.nodes.len(),
        final(doc)@.nodes == old(doc)@.with_new_node(DataView::Elem { tag: "small"@, attrs: Seq::empty() }),
{
    let n = create_element(doc, "small");
    Small { inner: CachedNode::new(n) }
}

impl Memoized for Small {
    closed spec fn memo_node(&self) -> NodeId {
        self.inner.node()
    }

    fn node(&self) -> (r: &CachedNode) {
        &self.inner
    }
}

impl Node for Small {}

impl Element for Small {}

impl ElementBuilder for Small {}

impl HtmlElement for Small {}

impl FlowContent for Small {}

impl PhrasingContent for Small {}

/// The [HTML `<span>` element][mdn] is a generic inline container for phrasing content, which
/// does not inherently represent anything. It can be used to group elements for styling
/// purposes (using the [`class`][class] or [`id`][id] attributes), or because they share
/// attribute values, such as [`lang`][lang].
///
/// [mdn]: https://developer.mozilla.org/en-US/docs/Web/HTML/Element/span
/// [class]: https://developer.mozilla.org/en-US/docs/Web/HTML/Global_attributes#attr-class
/// [id]: https://developer.mozilla.org/en-US/docs/Web/HTML/Global_attributes#attr-id
/// [lang]: https://developer.mozilla.org/en-US/docs/Web/HTML/Global_attributes#attr-lang
pub struct Span {
    inner: CachedNode,
}

/// The [HTML `<span>` element][mdn] is a generic inline container for phrasing content, which
/// does not inherently represent anything. It can be used to group elements for styling
/// purposes (using the [`class`][class] or [`id`][id] attributes), or because they share
/// attribute values, such as [`lang`][lang].
///
/// [mdn]: https://developer.mozilla.org/en-US/docs/Web/HTML/Element/span
/// [class]: https://developer.mozilla.org/en-US/docs/Web/HTML/Global_attributes#attr-class
/// [id]: https://developer.mozilla.org/en-US/docs/Web/HTML/Global_attributes#attr-id
/// [lang]: https://developer.mozilla.org/en-US/docs/Web/HTML/Global_attributes#attr-lang
pub fn span(doc: &mut VirtDocument) -> (r: Span)
    requires
        old(doc).wf(),
    ensures
        final(doc).wf(),
        r.memo_node() == old(doc)@.nodes.len(),
        final(doc)@.nodes == old(doc)@.with_new_node(DataView::Elem { tag: "span"@, attrs: Seq::empty() }),
{
    let n = create_element(doc, "span");
    Span { inner: CachedNode::new(n) }
}

impl Memoized for Span {
    closed spec fn memo_node(&self) -> NodeId {
        self.inner.node()
    }

    fn node(&self) -> (r: &CachedNode) {
        &self.inner
    }
}

impl Node for Span {}

impl Element for Span {}

impl ElementBuilder for Span {}

impl HtmlElement for Span {}

impl FlowContent for Span {}

impl PhrasingContent for Span {}

/// The [HTML Strong Importance Element (`<strong>`)][mdn] indicates that its contents have
/// strong importance, seriousness, or urgency. Browsers typically render the contents in bold
/// type.
///
/// [mdn]: https://developer.mozilla.org/en-US/docs/Web/HTML/Element/strong
pub struct Strong {
    inner: CachedNode,
}

/// The [HTML Strong Importance Element (`<strong>`)][mdn] indicates that its contents have
/// strong importance, seriousness, or urgency. Browsers typically render the contents in bold
/// type.
///
/// [mdn]: https://developer.mozilla.org/en-US/docs/Web/HTML/Element/strong
pub fn strong(doc: &mut VirtDocument) -> (r: Strong)
    requires
        old(doc).wf(),
    ensures
        final(doc).wf(),
        r.memo_node() == old(doc)@.nodes.len(),
        final(doc)@.nodes == old(doc)@.with_new_node(DataView::Elem { tag: "strong"@, attrs: Seq::empty() }),
{
    let n = create_element(doc, "strong");
    Strong { inner: CachedNode::new(n) }
}

impl Memoized for Strong {
    closed spec fn memo_node(&self) -> NodeId {
        self.inner.node()
    }

    fn node(&self) -> (r: &CachedNode) {
        &self.inner
    }
}

impl Node for Strong {}

impl Element for Strong {}

impl ElementBuilder for Strong {}

impl HtmlElement for Strong {}

impl FlowContent for Strong {}

impl PhrasingContent for Strong {}

impl PalpableContent for Strong {}

/// The [HTML Subscript element (`<sub>`)][mdn] specifies inline text which should be displayed
/// as subscript for solely typographical reasons.
///
/// [mdn]: https://developer.mozilla.org/en-US/docs/Web/HTML/Element/sub
pub struct Sub {
    inner: CachedNode,
}

/// The [HTML Subscript element (`<sub>`)][mdn] specifies inline text which should be displayed
/// as subscript for solely typographical reasons.
///
/// [mdn]: https://developer.mozilla.org/en-US/docs/Web/HTML/Element/sub
pub fn sub(doc: &mut VirtDocument) -> (r: Sub)
    requires
        old(doc).wf(),
    ensures
        final(doc).wf(),
        r.memo_node() == old(doc)@.nodes.len(),
        final(doc)@.nodes == old(doc)@.with_new_node(DataView::Elem { tag: "sub"@, attrs: Seq::empty() }),
{
    let n = create_element(doc, "sub");
    Sub { inner: CachedNode::new(n) }
}

impl Memoized for Sub {
    closed spec fn memo_node(&self) -> NodeId {
        self.inner.node()
    }

    fn node(&self) -> (r: &CachedNode) {
        &self.inner
    }
}

impl Node for Sub {}

impl Element for Sub {}

impl ElementBuilder for Sub {}

impl HtmlElement for Sub {}

impl FlowContent for Sub {}

impl PhrasingContent for Sub {}

impl PalpableContent for Sub {}

/// The [HTML Superscript element (`<sup>`)][mdn] specifies inline text which is to be displayed
/// as superscript for solely typographical reasons.
///
/// [mdn]: https://developer.mozilla.org/en-US/docs/Web/HTML/Element/sup
pub struct Sup {
    inner: CachedNode,
}

/// The [HTML Superscript element (`<sup>`)][mdn] specifies inline text which is to be displayed
/// as superscript for solely typographical reasons.
///
/// [mdn]: https://developer.mozilla.org/en-US/docs/Web/HTML/Element/sup
pub fn sup(doc: &mut VirtDocument) -> (r: Sup)
    requires
        old(doc).wf(),
    ensures
        final(doc).wf(),
        r.memo_node() == old(doc)@.nodes.len(),
        final(doc)@.nodes == old(doc)@.with_new_node(DataView::Elem { tag: "sup"@, attrs: Seq::empty() }),
{
    let n = create_element(doc, "sup");
    Sup { inner: CachedNode::new(n) }
}

impl Memoized for Sup {
    closed spec fn memo_node(&self) -> NodeId {
        self.inner.node()
    }

    fn node(&self) -> (r: &CachedNode) {
        &self.inner
    }
}

impl Node for Sup {}

impl Element for Sup {}

impl ElementBuilder for Sup {}

impl HtmlElement for Sup {}

impl FlowContent for Sup {}

impl PhrasingContent for Sup {}

impl PalpableContent for Sup {}

/// The [HTML `<time>` element][mdn] represents a specific period in time.
///
/// [mdn]: https://developer.mozilla.org/en-US/docs/Web/HTML/Element/time
pub struct Time {
    inner: CachedNode,
}

/// The [HTML `<time>` element][mdn] represents a specific period in time.
///
/// [mdn]: https://developer.mozilla.org/en-US/docs/Web/HTML/Element/time
pub fn time(doc: &mut VirtDocument) -> (r: Time)
    requires
        old(doc).wf(),
    ensures
        final(doc).wf(),
        r.memo_node() == old(doc)@.nodes.len(),
        final(doc)@.nodes == old(doc)@.with_new_node(DataView::Elem { tag: "time"@, attrs: Seq::empty() }),
{
    let n = create_element(doc, "time");
    Time { inner: CachedNode::new(n) }
}

impl Memoized for Time {
    closed spec fn memo_node(&self) -> NodeId {
        self.inner.node()
    }

    fn node(&self) -> (r: &CachedNode) {
        &self.inner
    }
}

impl Node for Time {}

impl Element for Time {}

impl ElementBuilder for Time {}

impl HtmlElement for Time {}

impl FlowContent for Time {}

impl PhrasingContent for Time {}

impl PalpableContent for Time {}

impl Time {
    /// This attribute indicates the time and/or date of the element and must be in one of the
    /// formats described below.
    pub fn datetime(self, doc: &mut VirtDocument, to_set: &str) -> (r: Self)
        requires
            old(doc).wf(),
            old(doc)@.valid(self.memo_node()),
            old(doc)@.is_elem(self.memo_node()),
        ensures
            final(doc).wf(),
            final(doc)@.nodes == old(doc)@.set_attr(self.memo_node(), "datetime"@, to_set@),
            r == self,
    {
        self.attribute(doc, "datetime", to_set)
    }
}

/// The [HTML Unarticulated Annotation Element (`<u>`)][mdn] represents a span of inline text
/// which should be rendered in a way that indicates that it has a non-textual annotation.
///
/// [mdn]: https://developer.mozilla.org/en-US/docs/Web/HTML/Element/u
pub struct U {
    inner: CachedNode,
}

/// The [HTML Unarticulated Annotation Element (`<u>`)][mdn] represents a span of inline text
/// which should be rendered in a way that indicates that it has a non-textual annotation.
///
/// [mdn]: https://developer.mozilla.org/en-US/docs/Web/HTML/Element/u
pub fn u(doc: &mut VirtDocument) -> (r: U)
    requires
        old(doc).wf(),
    ensures
        final(doc).wf(),
        r.memo_node() == old(doc)@.nodes.len(),
        final(doc)@.nodes == old(doc)@.with_new_node(DataView::Elem { tag: "u"@, attrs: Seq::empty() }),
{
    let n = create_element(doc, "u");
    U { inner: CachedNode::new(n) }
}

impl Memoized for U {
    closed spec fn memo_node(&self) -> NodeId {
        self.inner.node()
    }

    fn node(&self) -> (r: &CachedNode) {
        &self.inner
    }
}

impl Node for U {}

impl Element for U {}

impl ElementBuilder for U {}

impl HtmlElement for U {}

impl FlowContent for U {}

impl PhrasingContent for U {}

impl PalpableContent for U {}

/// The [HTML Variable element (`<var>`)][mdn] represents the name of a variable in a
/// mathematical expression or a programming context.
///
/// [mdn]: https://developer.mozilla.org/en-US/docs/Web/HTML/Element/var
pub struct Var {
    inner: CachedNode,
}

/// The [HTML Variable element (`<var>`)][mdn] represents the name of a variable in a
/// mathematical expression or a programming context.
///
/// [mdn]: https://developer.mozilla.org/en-US/docs/Web/HTML/Element/var
pub fn var(doc: &mut VirtDocument) -> (r: Var)
    requires
        old(doc).wf(),
    ensures
        final(doc).wf(),
        r.memo_node() == old(doc)@.nodes.len(),
        final(doc)@.nodes == old(doc)@.with_new_node(DataView::Elem { tag: "var"@, attrs: Seq::empty() }),
{
    let n = create_element(doc, "var");
    Var { inner: CachedNode::new(n) }
}

impl Memoized for Var {
    closed spec fn memo_node(&self) -> NodeId {
        self.inner.node()
    }

    fn node(&self) -> (r: &CachedNode) {
        &self.inner
    }
}

impl Node for Var {}

impl Element for Var {}

impl ElementBuilder for Var {}

impl HtmlElement for Var {}

impl FlowContent for Var {}

impl PhrasingContent for Var {}

impl PalpableContent for Var {}

/// The [HTML `<wbr>` element][mdn] represents a word break opportunity—a position within text
/// where the browser may optionally break a line, though its line-breaking rules would not
/// otherwise create a break at that location.
///
/// [mdn]: https://developer.mozilla.org/en-US/docs/Web/HTML/Element/wbr
pub struct Wbr {
    inner: CachedNode,
}

/// The [HTML `<wbr>` element][mdn] represents a word break opportunity—a position within text
/// where the browser may optionally break a line, though its line-breaking rules would not
/// otherwise create a break at that location.
///
/// [mdn]: https://developer.mozilla.org/en-US/docs/Web/HTML/Element/wbr
pub fn wbr(doc: &mut VirtDocument) -> (r: Wbr)
    requires
        old(doc).wf(),
    ensures
        final(doc).wf(),
        r.memo_node() == old(doc)@.nodes.len(),
        final(doc)@.nodes == old(doc)@.with_new_node(DataView::Elem { tag: "wbr"@, attrs: Seq::empty() }),
{
    let n = create_element(doc, "wbr");
    Wbr { inner: CachedNode::new(n) }
}

impl Memoized for Wbr {
    closed spec fn memo_node(&self) -> NodeId {
        self.inner.node()
    }

    fn node(&self) -> (r: &CachedNode) {
        &self.inner
    }
}

impl Node for Wbr {}

impl Element for Wbr {}

impl ElementBuilder for Wbr {}

impl HtmlElement for Wbr {}

impl FlowContent for Wbr {}

impl PhrasingContent for Wbr {}

/// The [HTML `<del>` element][mdn] represents a range of text that has been deleted from a
/// document.
///
/// [mdn]: https://developer.mozilla.org/en-US/docs/Web/HTML/Element/del
pub struct Del {
    inner: CachedNode,
}

/// The [HTML `<del>` element][mdn] represents a range of text that has been deleted from a
/// document.
///
/// [mdn]: https://developer.mozilla.org/en-US/docs/Web/HTML/Element/del
pub fn del(doc: &mut VirtDocument) -> (r: Del)
    requires
        old(doc).wf(),
    ensures
        final(doc).wf(),
        r.memo_node() == old(doc)@.nodes.len(),
        final(doc)@.nodes == old(doc)@.with_new_node(DataView::Elem { tag: "del"@, attrs: Seq::empty() }),
{
    let n = create_element(doc, "del");
    Del { inner: CachedNode::new(n) }
}

impl Memoized for Del {
    closed spec fn memo_node(&self) -> NodeId {
        self.inner.node()
    }

    fn node(&self) -> (r: &CachedNode) {
        &self.inner
    }
}

impl Node for Del {}

impl Element for Del {}

impl ElementBuilder for Del {}

impl HtmlElement for Del {}

impl PhrasingContent for Del {}

impl FlowContent for Del {}

impl Del {
    /// A URI for a resource that explains the change (for example, meeting minutes).
    pub fn cite(self, doc: &mut VirtDocument, to_set: &str) -> (r: Self)
        requires
            old(doc).wf(),
            old(doc)@.valid(self.memo_node()),
            old(doc)@.is_elem(self.memo_node()),
        ensures
            final(doc).wf(),
            final(doc)@.nodes == old(doc)@.set_attr(self.memo_node(), "cite"@, to_set@),
            r == self,
    {
        self.attribute(doc, "cite", to_set)
    }

    /// This attribute indicates the time and date of the change and must be a valid date string
    /// with an optional time. If the value cannot be parsed as a date with an optional time
    /// string, the element does not have an associated time stamp. For the format of the string
    /// without a time, see Date strings. The format of the string if it includes both date and
    /// time is covered in Local date and time strings.
    pub fn datetime(self, doc: &mut VirtDocument, to_set: &str) -> (r: Self)
        requires
            old(doc).wf(),
            old(doc)@.valid(self.memo_node()),
            old(doc)@.is_elem(self.memo_node()),
        ensures
            final(doc).wf(),
            final(doc)@.nodes == old(doc)@.set_attr(self.memo_node(), "datetime"@, to_set@),
            r == self,
    {
        self.attribute(doc, "datetime", to_set)
    }
}

/// The [HTML `<ins>` element][mdn] represents a range of text that has been added to a
/// document.
///
/// [mdn]: https://developer.mozilla.org/en-US/docs/Web/HTML/Element/ins
pub struct Ins {
    inner: CachedNode,
}

/// The [HTML `<ins>` element][mdn] represents a range of text that has been added to a
/// document.
///
/// [mdn]: https://developer.mozilla.org/en-US/docs/Web/HTML/Element/ins
pub fn ins(doc: &mut VirtDocument) -> (r: Ins)
    requires
        old(doc).wf(),
    ensures
        final(doc).wf(),
        r.memo_node() == old(doc)@.nodes.len(),
        final(doc)@.nodes == old(doc)@.with_new_node(DataView::Elem { tag: "ins"@, attrs: Seq::empty() }),
{
    let n = create_element(doc, "ins");
    Ins { inner: CachedNode::new(n) }
}

impl Memoized for Ins {
    closed spec fn memo_node(&self) -> NodeId {
        self.inner.node()
    }

    fn node(&self) -> (r: &CachedNode) {
        &self.inner
    }
}

impl Node for Ins {}

impl Element for Ins {}

impl ElementBuilder for Ins {}

impl HtmlElement for Ins {}

impl PhrasingContent for Ins {}

impl FlowContent for Ins {}

impl Ins {
    /// A URI for a resource that explains the change (for example, meeting minutes).
    pub fn cite(self, doc: &mut VirtDocument, to_set: &str) -> (r: Self)
        requires
            old(doc).wf(),
            old(doc)@.valid(self.memo_node()),
            old(doc)@.is_elem(self.memo_node()),
        ensures
            final(doc).wf(),
            final(doc)@.nodes == old(doc)@.set_attr(self.memo_node(), "cite"@, to_set@),
            r == self,
    {
        self.attribute(doc, "cite", to_set)
    }

    /// This attribute indicates the time and date of the change and must be a valid date string
    /// with an optional time. If the value cannot be parsed as a date with an optional time
    /// string, the element does not have an associated time stamp. For the format of the string
    /// without a time, see Date strings. The format of the string if it includes both date and
    /// time is covered in Local date and time strings.
    pub fn datetime(self, doc: &mut VirtDocument, to_set: &str) -> (r: Self)
        requires
            old(doc).wf(),
            old(doc)@.valid(self.memo_node()),
            old(doc)@.is_elem(self.memo_node()),
        ensures
            final(doc).wf(),
            final(doc)@.nodes == old(doc)@.set_attr(self.memo_node(), "datetime"@, to_set@),
            r == self,
    {
        self.attribute(doc, "datetime", to_set)
    }
}

} // verus!
