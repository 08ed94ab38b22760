//! Elements that embed other content: images, frames, plugins and media sources.

use vstd::prelude::*;
use crate::cached_node::CachedNode;
use crate::interfaces::element::{Element, ElementBuilder};
use crate::interfaces::html_element::HtmlElement;
use crate::interfaces::node::{Memoized, Node};
use crate::interfaces::security::{referrer_policy_name, ReferrerPolicy};
use crate::rsdom::{create_element, DataView, NodeId, VirtDocument};

verus! {

/// The [HTML `<embed>` element][mdn] embeds external content at the specified point in the
/// document. This content is provided by an external application or other source of interactive
/// content such as a browser plug-in.
///
/// [mdn]: https://developer.mozilla.org/en-US/docs/Web/HTML/Element/embed
pub struct Embed {
    inner: CachedNode,
}

/// The [HTML `<embed>` element][mdn] embeds external content at the specified point in the
/// document. This content is provided by an external application or other source of interactive
/// content such as a browser plug-in.
///
/// [mdn]: https://developer.mozilla.org/en-US/docs/Web/HTML/Element/embed
pub fn embed(doc: &mut VirtDocument) -> (r: Embed)
    requires
        old(doc).wf(),
    ensures
        final(doc).wf(),
        r.memo_node() == old(doc)@.nodes.len(),
        final(doc)@.nodes == old(doc)@.with_new_node(DataView::Elem { tag: "embed"@, attrs: Seq::empty() }),
{
    let n = create_element(doc, "embed");
    Embed { inner: CachedNode::new(n) }
}

impl Memoized for Embed {
    closed spec fn memo_node(&self) -> NodeId {
        self.inner.node()
    }

    fn node(&self) -> (r: &CachedNode) {
        &self.inner
    }
}

impl Node for Embed {}

impl Element for Embed {}

impl ElementBuilder for Embed {}

impl HtmlElement for Embed {}

impl Embed {
    /// The displayed height of the resource, in [CSS pixels]. This must be an absolute value;
    /// percentages are not allowed.
    ///
    /// [CSS pixels]: https://drafts.csswg.org/css-values/#px
    pub fn height(self, doc: &mut VirtDocument, to_set: &str) -> (r: Self)
        requires
            old(doc).wf(),
            old(doc)@.valid(self.memo_node()),
            old(doc)@.is_elem(self.memo_node()),
        ensures
            final(doc).wf(),
            final(doc)@.nodes == old(doc)@.set_attr(self.memo_node(), "height"@, to_set@),
            r == self,
    {
        self.attribute(doc, "height", to_set)
    }

    /// The URL of the resource being embedded.
    pub fn src(self, doc: &mut VirtDocument, to_set: &str) -> (r: Self)
        requires
            old(doc).wf(),
            old(doc)@.valid(self.memo_node()),
            old(doc)@.is_elem(self.memo_node()),
        ensures
            final(doc).wf(),
            final(doc)@.nodes == old(doc)@.set_attr(self.memo_node(), "src"@, to_set@),
            r == self,
    {
        self.attribute(doc, "src", to_set)
    }

    /// The [MIME type] to use to select the plug-in to instantiate.
    ///
    /// [MIME type]: https://developer.mozilla.org/en-US/docs/Glossary/MIME_type
    pub fn type_(self, doc: &mut VirtDocument, to_set: &str) -> (r: Self)
        requires
            old(doc).wf(),
            old(doc)@.valid(self.memo_node()),
            old(doc)@.is_elem(self.memo_node()),
        ensures
            final(doc).wf(),
            final(doc)@.nodes == old(doc)@.set_attr(self.memo_node(), "type"@, to_set@),
            r == self,
    {
        self.attribute(doc, "type", to_set)
    }

    /// The displayed width of the resource, in [CSS pixels]. This must be an absolute value;
    /// percentages are not allowed.
    ///
    /// [CSS pixels]: https://drafts.csswg.org/css-values/#px
    pub fn width(self, doc: &mut VirtDocument, to_set: &str) -> (r: Self)
        requires
            old(doc).wf(),
            old(doc)@.valid(self.memo_node()),
            old(doc)@.is_elem(self.memo_node()),
        ensures
            final(doc).wf(),
            final(doc)@.nodes == old(doc)@.set_attr(self.memo_node(), "width"@, to_set@),
            r == self,
    {
        self.attribute(doc, "width", to_set)
    }
}

/// The [HTML Inline Frame element (`<iframe>`)][mdn] represents a nested [browsing context],
/// embedding another HTML page into the current one.
///
/// [mdn]: https://developer.mozilla.org/en-US/docs/Web/HTML/Element/iframe
/// [browsing context]: https://developer.mozilla.org/en-US/docs/Glossary/browsing_context
pub struct Iframe {
    inner: CachedNode,
}

/// The [HTML Inline Frame element (`<iframe>`)][mdn] represents a nested [browsing context],
/// embedding another HTML page into the current one.
///
/// [mdn]: https://developer.mozilla.org/en-US/docs/Web/HTML/Element/iframe
/// [browsing context]: https://developer.mozilla.org/en-US/docs/Glossary/browsing_context
pub fn iframe(doc: &mut VirtDocument) -> (r: Iframe)
    requires
        old(doc).wf(),
    ensures
        final(doc).wf(),
        r.memo_node() == old(doc)@.nodes.len(),
        final(doc)@.nodes == old(doc)@.with_new_node(DataView::Elem { tag: "iframe"@, attrs: Seq::empty() }),
{
    let n = create_element(doc, "iframe");
    Iframe { inner: CachedNode::new(n) }
}

impl Memoized for Iframe {
    closed spec fn memo_node(&self) -> NodeId {
        self.inner.node()
    }

    fn node(&self) -> (r: &CachedNode) {
        &self.inner
    }
}

impl Node for Iframe {}

impl Element for Iframe {}

impl ElementBuilder for Iframe {}

impl HtmlElement for Iframe {}

impl Iframe {
    /// Specifies a feature policy for the <iframe>.
    pub fn allow(self, doc: &mut VirtDocument, to_set: &str) -> (r: Self)
        requires
            old(doc).wf(),
            old(doc)@.valid(self.memo_node()),
            old(doc)@.is_elem(self.memo_node()),
        ensures
            final(doc).wf(),
            final(doc)@.nodes == old(doc)@.set_attr(self.memo_node(), "allow"@, to_set@),
            r == self,
    {
        self.attribute(doc, "allow", to_set)
    }

    /// The height of the frame in CSS pixels. Default is 150.
    pub fn height(self, doc: &mut VirtDocument, to_set: &str) -> (r: Self)
        requires
            old(doc).wf(),
            old(doc)@.valid(self.memo_node()),
            old(doc)@.is_elem(self.memo_node()),
        ensures
            final(doc).wf(),
            final(doc)@.nodes == old(doc)@.set_attr(self.memo_node(), "height"@, to_set@),
            r == self,
    {
        self.attribute(doc, "height", to_set)
    }

    /// A targetable name for the embedded browsing context. This can be used in the target
    /// attribute of the <a>, <form>, or <base> elements; the formtarget attribute of the
    /// <input> or <button> elements; or the windowName parameter in the window.open() method.
    pub fn name(self, doc: &mut VirtDocument, to_set: &str) -> (r: Self)
        requires
            old(doc).wf(),
            old(doc)@.valid(self.memo_node()),
            old(doc)@.is_elem(self.memo_node()),
        ensures
            final(doc).wf(),
            final(doc)@.nodes == old(doc)@.set_attr(self.memo_node(), "name"@, to_set@),
            r == self,
    {
        self.attribute(doc, "name", to_set)
    }

    /// Indicates which referrer to send when fetching the frame's resource.
    pub fn referrerpolicy(self, doc: &mut VirtDocument, to_set: ReferrerPolicy) -> (r: Self)
        requires
            old(doc).wf(),
            old(doc)@.valid(self.memo_node()),
            old(doc)@.is_elem(self.memo_node()),
        ensures
            final(doc).wf(),
            final(doc)@.nodes == old(doc)@.set_attr(self.memo_node(), "referrerpolicy"@, referrer_policy_name(to_set)),
            r == self,
    {
        self.attribute(doc, "referrerpolicy", to_set.as_str())
    }

    /// Applies extra restrictions to the content in the frame. The value of the attribute can
    /// either be empty to apply all restrictions, or space-separated tokens to lift particular
    /// restrictions:
    ///
    /// * allow-downloads-without-user-activation: Allows for downloads to occur without a
    /// gesture from the user.
    /// * allow-forms: Allows the resource to submit forms. If this keyword is not used, form
    /// submission is blocked.
    /// * allow-modals: Lets the resource open modal windows.
    /// * allow-orientation-lock: Lets the resource lock the screen orientation.
    /// * allow-pointer-lock: Lets the resource use the Pointer Lock API.
    /// * allow-popups: Allows popups (such as window.open(), target="_blank", or
    /// showModalDialog()). If this keyword is not used, the popup will silently fail to open.
    /// * allow-popups-to-escape-sandbox: Lets the sandboxed document open new windows without
    /// those windows inheriting the sandboxing. For example, this can safely sandbox an
    /// advertisement without forcing the same restrictions upon the page the ad links to.
    /// * allow-presentation: Lets the resource start a presentation session.
    /// * allow-same-origin: If this token is not used, the resource is treated as being from a
    /// special origin that always fails the same-origin policy.
    /// * allow-scripts: Lets the resource run scripts (but not create popup windows).
    /// * allow-storage-access-by-user-activation : Lets the resource request access to the
    /// parent's storage capabilities with the Storage Access API.
    /// * allow-top-navigation: Lets the resource navigate the top-level browsing context (the
    /// one named _top).
    /// * allow-top-navigation-by-user-activation: Lets the resource navigate the top-level
    /// browsing context, but only if initiated by a user gesture.
    ///
    /// Notes about sandboxing:
    ///
    /// When the embedded document has the same origin as the embedding page, it is strongly
    /// discouraged to use both allow-scripts and allow-same-origin, as that lets the embedded
    /// document remove the sandbox attribute — making it no more secure than not using the
    /// sandbox attribute at all.
    ///
    /// Sandboxing is useless if the attacker can display content outside a sandboxed iframe —
    /// such as if the viewer opens the frame in a new tab. Such content should be also served
    /// from a separate origin to limit potential damage.
    pub fn sandbox(self, doc: &mut VirtDocument, to_set: &str) -> (r: Self)
        requires
            old(doc).wf(),
            old(doc)@.valid(self.memo_node()),
            old(doc)@.is_elem(self.memo_node()),
        ensures
            final(doc).wf(),
            final(doc)@.nodes == old(doc)@.set_attr(self.memo_node(), "sandbox"@, to_set@),
            r == self,
    {
        self.attribute(doc, "sandbox", to_set)
    }

    /// The URL of the page to embed. Use a value of about:blank to embed an empty page that
    /// conforms to the same-origin policy. Also note that programatically removing an
    /// <iframe>'s src attribute (e.g. via Element.removeAttribute()) causes about:blank to be
    /// loaded in the frame in Firefox (from version 65), Chromium-based browsers, and
    /// Safari/iOS.
    pub fn src(self, doc: &mut VirtDocument, to_set: &str) -> (r: Self)
        requires
            old(doc).wf(),
            old(doc)@.valid(self.memo_node()),
            old(doc)@.is_elem(self.memo_node()),
        ensures
            final(doc).wf(),
            final(doc)@.nodes == old(doc)@.set_attr(self.memo_node(), "src"@, to_set@),
            r == self,
    {
        self.attribute(doc, "src", to_set)
    }

    /// Inline HTML to embed, overriding the src attribute. If a browser does not support the
    /// srcdoc attribute, it will fall back to the URL in the src attribute.
    pub fn srcdoc(self, doc: &mut VirtDocument, to_set: &str) -> (r: Self)
        requires
            old(doc).wf(),
            old(doc)@.valid(self.memo_node()),
            old(doc)@.is_elem(self.memo_node()),
        ensures
            final(doc).wf(),
            final(doc)@.nodes == old(doc)@.set_attr(self.memo_node(), "srcdoc"@, to_set@),
            r == self,
    {
        self.attribute(doc, "srcdoc", to_set)
    }

    /// The width of the frame in CSS pixels. Default is 300.
    pub fn width(self, doc: &mut VirtDocument, to_set: &str) -> (r: Self)
        requires
            old(doc).wf(),
            old(doc)@.valid(self.memo_node()),
            old(doc)@.is_elem(self.memo_node()),
        ensures
            final(doc).wf(),
            final(doc)@.nodes == old(doc)@.set_attr(self.memo_node(), "width"@, to_set@),
            r == self,
    {
        self.attribute(doc, "width", to_set)
    }
}

/// The [HTML `<object>` element][mdn] represents an external resource, which can be treated as
/// an image, a nested browsing context, or a resource to be handled by a plugin.
///
/// [mdn]: https://developer.mozilla.org/en-US/docs/Web/HTML/Element/object
pub struct Object {
    inner: CachedNode,
}

/// The [HTML `<object>` element][mdn] represents an external resource, which can be treated as
/// an image, a nested browsing context, or a resource to be handled by a plugin.
///
/// [mdn]: https://developer.mozilla.org/en-US/docs/Web/HTML/Element/object
pub fn object(doc: &mut VirtDocument) -> (r: Object)
    requires
        old(doc).wf(),
    ensures
        final(doc).wf(),
        r.memo_node() == old(doc)@.nodes.len(),
        final(doc)@.nodes == old(doc)@.with_new_node(DataView::Elem { tag: "object"@, attrs: Seq::empty() }),
{
    let n = create_element(doc, "object");
    Object { inner: CachedNode::new(n) }
}

impl Memoized for Object {
    closed spec fn memo_node(&self) -> NodeId {
        self.inner.node()
    }

    fn node(&self) -> (r: &CachedNode) {
        &self.inner
    }
}

impl Node for Object {}

impl Element for Object {}

impl ElementBuilder for Object {}

impl HtmlElement for Object {}

impl Object {
    /// Specifies the URL of the resource.
    pub fn data(self, doc: &mut VirtDocument, to_set: &str) -> (r: Self)
        requires
            old(doc).wf(),
            old(doc)@.valid(self.memo_node()),
            old(doc)@.is_elem(self.memo_node()),
        ensures
            final(doc).wf(),
            final(doc)@.nodes == old(doc)@.set_attr(self.memo_node(), "data"@, to_set@),
            r == self,
    {
        self.attribute(doc, "data", to_set)
    }

    /// The form element, if any, that the object element is associated with (its form owner).
    /// The value of the attribute must be an ID of a <form> element in the same document.
    pub fn form(self, doc: &mut VirtDocument, to_set: &str) -> (r: Self)
        requires
            old(doc).wf(),
            old(doc)@.valid(self.memo_node()),
            old(doc)@.is_elem(self.memo_node()),
        ensures
            final(doc).wf(),
            final(doc)@.nodes == old(doc)@.set_attr(self.memo_node(), "form"@, to_set@),
            r == self,
    {
        self.attribute(doc, "form", to_set)
    }

    /// The height of the displayed resource, in CSS pixels. No percentages.
    pub fn height(self, doc: &mut VirtDocument, to_set: &str) -> (r: Self)
        requires
            old(doc).wf(),
            old(doc)@.valid(self.memo_node()),
            old(doc)@.is_elem(self.memo_node()),
        ensures
            final(doc).wf(),
            final(doc)@.nodes == old(doc)@.set_attr(self.memo_node(), "height"@, to_set@),
            r == self,
    {
        self.attribute(doc, "height", to_set)
    }

    /// The name of valid browsing context.
    pub fn name(self, doc: &mut VirtDocument, to_set: &str) -> (r: Self)
        requires
            old(doc).wf(),
            old(doc)@.valid(self.memo_node()),
            old(doc)@.is_elem(self.memo_node()),
        ensures
            final(doc).wf(),
            final(doc)@.nodes == old(doc)@.set_attr(self.memo_node(), "name"@, to_set@),
            r == self,
    {
        self.attribute(doc, "name", to_set)
    }

    /// The content type of the resource specified by data. At least one of data and type must
    /// be defined.
    pub fn type_(self, doc: &mut VirtDocument, to_set: &str) -> (r: Self)
        requires
            old(doc).wf(),
            old(doc)@.valid(self.memo_node()),
            old(doc)@.is_elem(self.memo_node()),
        ensures
            final(doc).wf(),
            final(doc)@.nodes == old(doc)@.set_attr(self.memo_node(), "type"@, to_set@),
            r == self,
    {
        self.attribute(doc, "type", to_set)
    }

    /// Indicates if the type attribute and the actual content type of the resource must match
    /// to be used.
    pub fn typemustmatch(self, doc: &mut VirtDocument, to_set: bool) -> (r: Self)
        requires
            old(doc).wf(),
            old(doc)@.valid(self.memo_node()),
            old(doc)@.is_elem(self.memo_node()),
        ensures
            final(doc).wf(),
            final(doc)@.nodes == if to_set { old(doc)@.set_attr(self.memo_node(), "typemustmatch"@, ""@) } else { old(doc)@.nodes },
            r == self,
    {
        if to_set {
            self.attribute(doc, "typemustmatch", "")
        } else {
            self
        }
    }

    /// A hash-name reference to a <map> element; that is a '#' followed by the value of a name
    /// of a map element.
    pub fn usemap(self, doc: &mut VirtDocument, to_set: &str) -> (r: Self)
        requires
            old(doc).wf(),
            old(doc)@.valid(self.memo_node()),
            old(doc)@.is_elem(self.memo_node()),
        ensures
            final(doc).wf(),
            final(doc)@.nodes == old(doc)@.set_attr(self.memo_node(), "usemap"@, to_set@),
            r == self,
    {
        self.attribute(doc, "usemap", to_set)
    }

    /// The width of the display resource, in CSS pixels. No percentages.
    pub fn width(self, doc: &mut VirtDocument, to_set: &str) -> (r: Self)
        requires
            old(doc).wf(),
            old(doc)@.valid(self.memo_node()),
            old(doc)@.is_elem(self.memo_node()),
        ensures
            final(doc).wf(),
            final(doc)@.nodes == old(doc)@.set_attr(self.memo_node(), "width"@, to_set@),
            r == self,
    {
        self.attribute(doc, "width", to_set)
    }
}

/// The [HTML `<param>` element][param] defines parameters for an [`<object>`][object] element.
///
/// [mdn]: https://developer.mozilla.org/en-US/docs/Web/HTML/Element/param
/// [object]: https://developer.mozilla.org/en-US/docs/Web/HTML/Element/object
pub struct Param {
    inner: CachedNode,
}

/// The [HTML `<param>` element][param] defines parameters for an [`<object>`][object] element.
///
/// [mdn]: https://developer.mozilla.org/en-US/docs/Web/HTML/Element/param
/// [object]: https://developer.mozilla.org/en-US/docs/Web/HTML/Element/object
pub fn param(doc: &mut VirtDocument) -> (r: Param)
    requires
        old(doc).wf(),
    ensures
        final(doc).wf(),
        r.memo_node() == old(doc)@.nodes.len(),
        final(doc)@.nodes == old(doc)@.with_new_node(DataView::Elem { tag: "param"@, attrs: Seq::empty() }),
{
    let n = create_element(doc, "param");
    Param { inner: CachedNode::new(n) }
}

impl Memoized for Param {
    closed spec fn memo_node(&self) -> NodeId {
        self.inner.node()
    }

    fn node(&self) -> (r: &CachedNode) {
        &self.inner
    }
}

impl Node for Param {}

impl Element for Param {}

impl ElementBuilder for Param {}

impl HtmlElement for Param {}

impl Param {
    /// Name of the parameter.
    pub fn name(self, doc: &mut VirtDocument, to_set: &str) -> (r: Self)
        requires
            old(doc).wf(),
            old(doc)@.valid(self.memo_node()),
            old(doc)@.is_elem(self.memo_node()),
        ensures
            final(doc).wf(),
            final(doc)@.nodes == old(doc)@.set_attr(self.memo_node(), "name"@, to_set@),
            r == self,
    {
        self.attribute(doc, "name", to_set)
    }

    /// Specifies the value of the parameter.
    pub fn value(self, doc: &mut VirtDocument, to_set: &str) -> (r: Self)
        requires
            old(doc).wf(),
            old(doc)@.valid(self.memo_node()),
            old(doc)@.is_elem(self.memo_node()),
        ensures
            final(doc).wf(),
            final(doc)@.nodes == old(doc)@.set_attr(self.memo_node(), "value"@, to_set@),
            r == self,
    {
        self.attribute(doc, "value", to_set)
    }
}

/// The [HTML `<picture>` element][mdn] contains zero or more [`<source>`][source] elements and
/// one [`<img>`][img] element to provide versions of an image for different display/device
/// scenarios.
///
/// [mdn]: https://developer.mozilla.org/en-US/docs/Web/HTML/Element/picture
/// [source]: https://developer.mozilla.org/en-US/docs/Web/HTML/Element/source
/// [img]: https://developer.mozilla.org/en-US/docs/Web/HTML/Element/img
pub struct Picture {
    inner: CachedNode,
}

/// The [HTML `<picture>` element][mdn] contains zero or more [`<source>`][source] elements and
/// one [`<img>`][img] element to provide versions of an image for different display/device
/// scenarios.
///
/// [mdn]: https://developer.mozilla.org/en-US/docs/Web/HTML/Element/picture
/// [source]: https://developer.mozilla.org/en-US/docs/Web/HTML/Element/source
/// [img]: https://developer.mozilla.org/en-US/docs/Web/HTML/Element/img
pub fn picture(doc: &mut VirtDocument) -> (r: Picture)
    requires
        old(doc).wf(),
    ensures
        final(doc).wf(),
        r.memo_node() == old(doc)@.nodes.len(),
        final(doc)@.nodes == old(doc)@.with_new_node(DataView::Elem { tag: "picture"@, attrs: Seq::empty() }),
{
    let n = create_element(doc, "picture");
    Picture { inner: CachedNode::new(n) }
}

impl Memoized for Picture {
    closed spec fn memo_node(&self) -> NodeId {
        self.inner.node()
    }

    fn node(&self) -> (r: &CachedNode) {
        &self.inner
    }
}

impl Node for Picture {}

impl Element for Picture {}

impl ElementBuilder for Picture {}

impl HtmlElement for Picture {}

/// The [HTML `<source>` element][source] specifies multiple media resources for the
/// [`<picture>`][picture], the [`<audio>`][audio] element, or the [`<video>`][video] element.
///
/// [mdn]: https://developer.mozilla.org/en-US/docs/Web/HTML/Element/source
/// [picture]: https://developer.mozilla.org/en-US/docs/Web/HTML/Element/picture
/// [audio]: https://developer.mozilla.org/en-US/docs/Web/HTML/Element/audio
/// [video]: https://developer.mozilla.org/en-US/docs/Web/HTML/Element/video
pub struct Source {
    inner: CachedNode,
}

/// The [HTML `<source>` element][source] specifies multiple media resources for the
/// [`<picture>`][picture], the [`<audio>`][audio] element, or the [`<video>`][video] element.
///
/// [mdn]: https://developer.mozilla.org/en-US/docs/Web/HTML/Element/source
/// [picture]: https://developer.mozilla.org/en-US/docs/Web/HTML/Element/picture
/// [audio]: https://developer.mozilla.org/en-US/docs/Web/HTML/Element/audio
/// [video]: https://developer.mozilla.org/en-US/docs/Web/HTML/Element/video
pub fn source(doc: &mut VirtDocument) -> (r: Source)
    requires
        old(doc).wf(),
    ensures
        final(doc).wf(),
        r.memo_node() == old(doc)@.nodes.len(),
        final(doc)@.nodes == old(doc)@.with_new_node(DataView::Elem { tag: "source"@, attrs: Seq::empty() }),
{
    let n = create_element(doc, "source");
    Source { inner: CachedNode::new(n) }
}

impl Memoized for Source {
    closed spec fn memo_node(&self) -> NodeId {
        self.inner.node()
    }

    fn node(&self) -> (r: &CachedNode) {
        &self.inner
    }
}

impl Node for Source {}

impl Element for Source {}

impl ElementBuilder for Source {}

impl HtmlElement for Source {}

impl Source {
    /// Media query of the resource's intended media; this should be used only in a <picture>
    /// element.
    pub fn media(self, doc: &mut VirtDocument, to_set: &str) -> (r: Self)
        requires
            old(doc).wf(),
            old(doc)@.valid(self.memo_node()),
            old(doc)@.is_elem(self.memo_node()),
        ensures
            final(doc).wf(),
            final(doc)@.nodes == old(doc)@.set_attr(self.memo_node(), "media"@, to_set@),
            r == self,
    {
        self.attribute(doc, "media", to_set)
    }

    /// Is a list of source sizes that describes the final rendered width of the image
    /// represented by the source. Each source size consists of a comma-separated list of media
    /// condition-length pairs. This information is used by the browser to determine, before
    /// laying the page out, which image defined in srcset to use. Please note that sizes will
    /// have its effect only if width dimension descriptors are provided with srcset instead of
    /// pixel ratio values (200w instead of 2x for example).
    ///
    /// The sizes attribute has an effect only when the <source> element is the direct child of
    /// a <picture> element.
    pub fn sizes(self, doc: &mut VirtDocument, to_set: &str) -> (r: Self)
        requires
            old(doc).wf(),
            old(doc)@.valid(self.memo_node()),
            old(doc)@.is_elem(self.memo_node()),
        ensures
            final(doc).wf(),
            final(doc)@.nodes == old(doc)@.set_attr(self.memo_node(), "sizes"@, to_set@),
            r == self,
    {
        self.attribute(doc, "sizes", to_set)
    }

    /// Required for <audio> and <video>, address of the media resource. The value of this
    /// attribute is ignored when the <source> element is placed inside a <picture> element.
    pub fn src(self, doc: &mut VirtDocument, to_set: &str) -> (r: Self)
        requires
            old(doc).wf(),
            old(doc)@.valid(self.memo_node()),
            old(doc)@.is_elem(self.memo_node()),
        ensures
            final(doc).wf(),
            final(doc)@.nodes == old(doc)@.set_attr(self.memo_node(), "src"@, to_set@),
            r == self,
    {
        self.attribute(doc, "src", to_set)
    }

    /// A list of one or more strings separated by commas indicating a set of possible images
    /// represented by the source for the browser to use. Each string is composed of:
    ///
    /// 1. One URL specifying an image.
    /// 2. A width descriptor, which consists of a string containing a positive integer directly
    /// followed by "w", such as 300w. The default value, if missing, is the infinity.
    /// 3. A pixel density descriptor, that is a positive floating number directly followed by
    /// "x". The default value, if missing, is 1x.
    ///
    /// Each string in the list must have at least a width descriptor or a pixel density
    /// descriptor to be valid. Among the list, there must be only one string containing the
    /// same tuple of width descriptor and pixel density descriptor. The browser chooses the
    /// most adequate image to display at a given point of time.
    ///
    /// The srcset attribute has an effect only when the <source> element is the direct child of
    /// a <picture> element.
    pub fn srcset(self, doc: &mut VirtDocument, to_set: &str) -> (r: Self)
        requires
            old(doc).wf(),
            old(doc)@.valid(self.memo_node()),
            old(doc)@.is_elem(self.memo_node()),
        ensures
            final(doc).wf(),
            final(doc)@.nodes == old(doc)@.set_attr(self.memo_node(), "srcset"@, to_set@),
            r == self,
    {
        self.attribute(doc, "srcset", to_set)
    }

    /// The MIME media type of the resource, optionally with a codecs parameter.
    pub fn type_(self, doc: &mut VirtDocument, to_set: &str) -> (r: Self)
        requires
            old(doc).wf(),
            old(doc)@.valid(self.memo_node()),
            old(doc)@.is_elem(self.memo_node()),
        ensures
            final(doc).wf(),
            final(doc)@.nodes == old(doc)@.set_attr(self.memo_node(), "type"@, to_set@),
            r == self,
    {
        self.attribute(doc, "type", to_set)
    }
}

} // verus!
