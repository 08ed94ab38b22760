//! Elements for dynamic scripts and graphics.

use vstd::prelude::*;
use crate::cached_node::CachedNode;
use crate::interfaces::content_categories::{EmbeddedContent, FlowContent, MetadataContent, PalpableContent, PhrasingContent};
use crate::interfaces::element::{Element, ElementBuilder};
use crate::interfaces::html_element::HtmlElement;
use crate::interfaces::node::{Memoized, Node};
use crate::interfaces::security::{referrer_policy_name, ReferrerPolicy};
use crate::rsdom::{create_element, DataView, NodeId, VirtDocument};

verus! {

/// Use the [HTML `<canvas>` element][mdn] with either the [canvas scripting API][api] or the
/// [WebGL API][gl] to draw graphics and animations.
///
/// [mdn]: https://developer.mozilla.org/en-US/docs/Web/HTML/Element/canvas
/// [api]: https://developer.mozilla.org/en-US/docs/Web/API/Canvas_API
/// [gl]: https://developer.mozilla.org/en-US/docs/Web/API/WebGL_API
pub struct Canvas {
    inner: CachedNode,
}

/// Use the [HTML `<canvas>` element][mdn] with either the [canvas scripting API][api] or the
/// [WebGL API][gl] to draw graphics and animations.
///
/// [mdn]: https://developer.mozilla.org/en-US/docs/Web/HTML/Element/canvas
/// [api]: https://developer.mozilla.org/en-US/docs/Web/API/Canvas_API
/// [gl]: https://developer.mozilla.org/en-US/docs/Web/API/WebGL_API
pub fn canvas(doc: &mut VirtDocument) -> (r: Canvas)
    requires
        old(doc).wf(),
    ensures
        final(doc).wf(),
        r.memo_node() == old(doc)@.nodes.len(),
        final(doc)@.nodes == old(doc)@.with_new_node(DataView::Elem { tag: "canvas"@, attrs: Seq::empty() }),
{
    let n = create_element(doc, "canvas");
    Canvas { inner: CachedNode::new(n) }
}

impl Memoized for Canvas {
    closed spec fn memo_node(&self) -> NodeId {
        self.inner.node()
    }

    fn node(&self) -> (r: &CachedNode) {
        &self.inner
    }
}

impl Node for Canvas {}

impl Element for Canvas {}

impl ElementBuilder for Canvas {}

impl HtmlElement for Canvas {}

impl FlowContent for Canvas {}

impl PhrasingContent for Canvas {}

impl EmbeddedContent for Canvas {}

impl PalpableContent for Canvas {}

impl Canvas {
    /// The height of the coordinate space in CSS pixels. Defaults to 150.
    pub fn height(self, doc: &mut VirtDocument, to_set: &str) -> (r: Self)
        requires
            old(doc).wf(),
            old(doc)@.valid(self.memo_node()),
            old(doc)@.is_elem(self.memo_node()),
        ensures
            final(doc).wf(),
            final(doc)@.nodes == old(doc)@.set_attr(self.memo_node(), "height"@, to_set@),
            r == self,
    {
        self.attribute(doc, "height", to_set)
    }

    /// The width of the coordinate space in CSS pixels. Defaults to 300.
    pub fn width(self, doc: &mut VirtDocument, to_set: &str) -> (r: Self)
        requires
            old(doc).wf(),
            old(doc)@.valid(self.memo_node()),
            old(doc)@.is_elem(self.memo_node()),
        ensures
            final(doc).wf(),
            final(doc)@.nodes == old(doc)@.set_attr(self.memo_node(), "width"@, to_set@),
            r == self,
    {
        self.attribute(doc, "width", to_set)
    }
}

/// The [HTML `<noscript>` element][mdn] defines a section of HTML to be inserted if a script
/// type on the page is unsupported or if scripting is currently turned off in the browser.
///
/// [mdn]: https://developer.mozilla.org/en-US/docs/Web/HTML/Element/noscript
pub struct Noscript {
    inner: CachedNode,
}

/// The [HTML `<noscript>` element][mdn] defines a section of HTML to be inserted if a script
/// type on the page is unsupported or if scripting is currently turned off in the browser.
///
/// [mdn]: https://developer.mozilla.org/en-US/docs/Web/HTML/Element/noscript
pub fn noscript(doc: &mut VirtDocument) -> (r: Noscript)
    requires
        old(doc).wf(),
    ensures
        final(doc).wf(),
        r.memo_node() == old(doc)@.nodes.len(),
        final(doc)@.nodes == old(doc)@.with_new_node(DataView::Elem { tag: "noscript"@, attrs: Seq::empty() }),
{
    let n = create_element(doc, "noscript");
    Noscript { inner: CachedNode::new(n) }
}

impl Memoized for Noscript {
    closed spec fn memo_node(&self) -> NodeId {
        self.inner.node()
    }

    fn node(&self) -> (r: &CachedNode) {
        &self.inner
    }
}

impl Node for Noscript {}

impl Element for Noscript {}

impl ElementBuilder for Noscript {}

impl HtmlElement for Noscript {}

impl MetadataContent for Noscript {}

impl FlowContent for Noscript {}

impl PhrasingContent for Noscript {}

/// The [HTML `<script>` element][mdn] is used to embed or reference executable code; this is
/// typically used to embed or refer to JavaScript code.
///
/// [mdn]: https://developer.mozilla.org/en-US/docs/Web/HTML/Element/script
pub struct Script {
    inner: CachedNode,
}

/// The [HTML `<script>` element][mdn] is used to embed or reference executable code; this is
/// typically used to embed or refer to JavaScript code.
///
/// [mdn]: https://developer.mozilla.org/en-US/docs/Web/HTML/Element/script
pub fn script(doc: &mut VirtDocument) -> (r: Script)
    requires
        old(doc).wf(),
    ensures
        final(doc).wf(),
        r.memo_node() == old(doc)@.nodes.len(),
        final(doc)@.nodes == old(doc)@.with_new_node(DataView::Elem { tag: "script"@, attrs: Seq::empty() }),
{
    let n = create_element(doc, "script");
    Script { inner: CachedNode::new(n) }
}

impl Memoized for Script {
    closed spec fn memo_node(&self) -> NodeId {
        self.inner.node()
    }

    fn node(&self) -> (r: &CachedNode) {
        &self.inner
    }
}

impl Node for Script {}

impl Element for Script {}

impl ElementBuilder for Script {}

impl HtmlElement for Script {}

impl MetadataContent for Script {}

impl FlowContent for Script {}

impl PhrasingContent for Script {}

impl Script {
    /// For classic scripts, if the async attribute is present, then the classic script will be
    /// fetched in parallel to parsing and evaluated as soon as it is available.
    ///
    /// For module scripts, if the async attribute is present then the scripts and all their
    /// dependencies will be executed in the defer queue, therefore they will get fetched in
    /// parallel to parsing and evaluated as soon as they are available.
    ///
    /// This attribute allows the elimination of parser-blocking JavaScript where the browser
    /// would have to load and evaluate scripts before continuing to parse. defer has a similar
    /// effect in this case.
    pub fn async_(self, doc: &mut VirtDocument, to_set: bool) -> (r: Self)
        requires
            old(doc).wf(),
            old(doc)@.valid(self.memo_node()),
            old(doc)@.is_elem(self.memo_node()),
        ensures
            final(doc).wf(),
            final(doc)@.nodes == if to_set { old(doc)@.set_attr(self.memo_node(), "async"@, ""@) } else { old(doc)@.nodes },
            r == self,
    {
        if to_set {
            self.attribute(doc, "async", "")
        } else {
            self
        }
    }

    /// Normal script elements pass minimal information to the window.onerror for scripts which
    /// do not pass the standard CORS checks. To allow error logging for sites which use a
    /// separate domain for static media, use this attribute.
    pub fn crossorigin(self, doc: &mut VirtDocument, to_set: &str) -> (r: Self)
        requires
            old(doc).wf(),
            old(doc)@.valid(self.memo_node()),
            old(doc)@.is_elem(self.memo_node()),
        ensures
            final(doc).wf(),
            final(doc)@.nodes == old(doc)@.set_attr(self.memo_node(), "crossorigin"@, to_set@),
            r == self,
    {
        self.attribute(doc, "crossorigin", to_set)
    }

    /// Indicates to a browser that the script is meant to be executed after the document has
    /// been parsed, but before firing DOMContentLoaded.
    ///
    /// Scripts with the defer attribute will prevent the DOMContentLoaded event from firing
    /// until the script has loaded and finished evaluating.
    ///
    /// This attribute must not be used if the src attribute is absent (i.e. for inline
    /// scripts), in this case it would have no effect.
    ///
    /// The defer attribute has no effect on module scripts — they defer by default.
    ///
    /// Scripts with the defer attribute will execute in the order in which they appear in the
    /// document.
    ///
    /// This attribute allows the elimination of parser-blocking JavaScript where the browser
    /// would have to load and evaluate scripts before continuing to parse. async has a similar
    /// effect in this case.
    pub fn defer(self, doc: &mut VirtDocument, to_set: bool) -> (r: Self)
        requires
            old(doc).wf(),
            old(doc)@.valid(self.memo_node()),
            old(doc)@.is_elem(self.memo_node()),
        ensures
            final(doc).wf(),
            final(doc)@.nodes == if to_set { old(doc)@.set_attr(self.memo_node(), "defer"@, ""@) } else { old(doc)@.nodes },
            r == self,
    {
        if to_set {
            self.attribute(doc, "defer", "")
        } else {
            self
        }
    }

    /// This attribute contains inline metadata that a user agent can use to verify that a
    /// fetched resource has been delivered free of unexpected manipulation.
    pub fn integrity(self, doc: &mut VirtDocument, to_set: &str) -> (r: Self)
        requires
            old(doc).wf(),
            old(doc)@.valid(self.memo_node()),
            old(doc)@.is_elem(self.memo_node()),
        ensures
            final(doc).wf(),
            final(doc)@.nodes == old(doc)@.set_attr(self.memo_node(), "integrity"@, to_set@),
            r == self,
    {
        self.attribute(doc, "integrity", to_set)
    }

    /// Indicates that the script should not be executed in browsers that support ES2015 modules
    /// — in effect, this can be used to serve fallback scripts to older browsers that do not
    /// support modular JavaScript code.
    pub fn nomodule(self, doc: &mut VirtDocument, to_set: bool) -> (r: Self)
        requires
            old(doc).wf(),
            old(doc)@.valid(self.memo_node()),
            old(doc)@.is_elem(self.memo_node()),
        ensures
            final(doc).wf(),
            final(doc)@.nodes == if to_set { old(doc)@.set_attr(self.memo_node(), "nomodule"@, ""@) } else { old(doc)@.nodes },
            r == self,
    {
        if to_set {
            self.attribute(doc, "nomodule", "")
        } else {
            self
        }
    }

    /// A cryptographic nonce (number used once) to whitelist scripts in a script-src
    /// Content-Security-Policy. The server must generate a unique nonce value each time it
    /// transmits a policy. It is critical to provide a nonce that cannot be guessed as
    /// bypassing a resource's policy is otherwise trivial.
    pub fn nonce(self, doc: &mut VirtDocument, to_set: &str) -> (r: Self)
        requires
            old(doc).wf(),
            old(doc)@.valid(self.memo_node()),
            old(doc)@.is_elem(self.memo_node()),
        ensures
            final(doc).wf(),
            final(doc)@.nodes == old(doc)@.set_attr(self.memo_node(), "nonce"@, to_set@),
            r == self,
    {
        self.attribute(doc, "nonce", to_set)
    }

    /// Indicates which referrer to send when fetching the script, or resources fetched by the
    /// script.
    pub fn referrerpolicy(self, doc: &mut VirtDocument, to_set: ReferrerPolicy) -> (r: Self)
        requires
            old(doc).wf(),
            old(doc)@.valid(self.memo_node()),
            old(doc)@.is_elem(self.memo_node()),
        ensures
            final(doc).wf(),
            final(doc)@.nodes == old(doc)@.set_attr(self.memo_node(), "referrerpolicy"@, referrer_policy_name(to_set)),
            r == self,
    {
        self.attribute(doc, "referrerpolicy", to_set.as_str())
    }

    /// This attribute specifies the URI of an external script; this can be used as an
    /// alternative to embedding a script directly within a document.
    pub fn src(self, doc: &mut VirtDocument, to_set: &str) -> (r: Self)
        requires
            old(doc).wf(),
            old(doc)@.valid(self.memo_node()),
            old(doc)@.is_elem(self.memo_node()),
        ensures
            final(doc).wf(),
            final(doc)@.nodes == old(doc)@.set_attr(self.memo_node(), "src"@, to_set@),
            r == self,
    {
        self.attribute(doc, "src", to_set)
    }

    /// This attribute indicates the type of script represented. The value of this attribute
    /// will be in one of the following categories:
    ///
    /// * Omitted or a JavaScript MIME type: This indicates the script is JavaScript. The HTML5
    /// specification urges authors to omit the attribute rather than provide a redundant MIME
    /// type.
    /// * `module`: Causes the code to be treated as a JavaScript module. The processing of the
    /// script contents is not affected by the charset and defer attributes. Unlike classic
    /// scripts, module scripts require the use of the CORS protocol for cross-origin
    /// fetching.
    /// * Any other value: The embedded content is treated as a data block which won't be
    /// processed by the browser. Developers must use a valid MIME type that is not a
    /// JavaScript MIME type to denote data blocks. The src attribute will be ignored.
    pub fn type_(self, doc: &mut VirtDocument, to_set: &str) -> (r: Self)
        requires
            old(doc).wf(),
            old(doc)@.valid(self.memo_node()),
            old(doc)@.is_elem(self.memo_node()),
        ensures
            final(doc).wf(),
            final(doc)@.nodes == old(doc)@.set_attr(self.memo_node(), "type"@, to_set@),
            r == self,
    {
        self.attribute(doc, "type", to_set)
    }
}

} // verus!
