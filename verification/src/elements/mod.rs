//! HTML element types, each wrapping a node of a [`VirtDocument`], and text
//! nodes. Each constructor creates a detached node in the document; the
//! attribute methods set the element's attributes.

pub mod document;
pub mod embedding;
pub mod forms;
pub mod interactive;
pub mod media;
pub mod metadata;
pub mod scripting;
pub mod table;
pub mod text_content;
pub mod text_semantics;

use vstd::prelude::*;
use crate::cached_node::CachedNode;
use crate::interfaces::content_categories::{FlowContent, PhrasingContent};
use crate::interfaces::node::{Memoized, Node};
use crate::normalize::string_push;
use crate::rsdom::{DataView, NodeId, VirtDocument};
pub use crate::elements::document::{Body, Html, Slot, Template, body, html, slot, template};
pub use crate::elements::embedding::{Embed, Iframe, Object, Param, Picture, Source, embed, iframe, object, param, picture, source};
pub use crate::elements::forms::{Button, Datalist, Fieldset, Form, Input, Label, Legend, Meter, Optgroup, OptionElement, Output, Progress, Select, Textarea, button, datalist, fieldset, form, input, label, legend, meter, optgroup, option, output, progress, select, textarea};
pub use crate::elements::interactive::{Details, Dialog, Menu, Summary, details, dialog, menu, summary};
pub use crate::elements::media::{Area, Audio, Img, MapElement, Track, Video, area, audio, img, track, video};
pub use crate::elements::metadata::{Base, Head, Link, Meta, Style, Title, base, head, link, meta, style, title};
pub use crate::elements::scripting::{Canvas, Noscript, Script, canvas, noscript, script};
pub use crate::elements::table::{Table, TableBody, TableCaption, TableCell, TableColumn, TableColumnGroup, TableFooter, TableHeader, TableHeaderCell, TableRow, caption, col, colgroup, table, tbody, td, tfoot, th, thead, tr};
pub use crate::elements::text_content::{Blockquote, Dd, Div, Dl, Dt, Figcaption, Figure, Hr, Li, Ol, P, Pre, Ul, blockquote, dd, div, dl, dt, figcaption, figure, hr, li, ol, p, pre, ul};
pub use crate::elements::text_semantics::{A, Abbr, B, Bdi, Bdo, Br, Cite, Code, Data, Del, Dfn, Em, I, Ins, Kbd, Mark, Q, Rb, Rp, Rt, Rtc, Ruby, S, Samp, Small, Span, Strong, Sub, Sup, Time, U, Var, Wbr, a, abbr, b, bdi, bdo, br, cite, code, data, del, dfn, em, i, ins, kbd, mark, q, rb, rp, rt, rtc, ruby, s, samp, small, span, strong, sub, sup, time, u, var, wbr};

verus! {

/// The decimal digit `d`.
pub open spec fn digit(d: nat) -> char {
    if d == 0 { '0' } else if d == 1 { '1' } else if d == 2 { '2' } else if d == 3 { '3' }
    else if d == 4 { '4' } else if d == 5 { '5' } else if d == 6 { '6' } else if d == 7 { '7' }
    else if d == 8 { '8' } else { '9' }
}

/// `n` written in decimal, as `to_string` writes an integer.
pub open spec fn decimal(n: nat) -> Seq<char>
    decreases n,
{
    if n < 10 {
        seq![digit(n)]
    } else {
        decimal(n / 10).push(digit(n % 10))
    }
}

fn digit_char(d: u32) -> (c: char)
    requires
        d < 10,
    ensures
        c == digit(d as nat),
{
    if d == 0 { '0' } else if d == 1 { '1' } else if d == 2 { '2' } else if d == 3 { '3' }
    else if d == 4 { '4' } else if d == 5 { '5' } else if d == 6 { '6' } else if d == 7 { '7' }
    else if d == 8 { '8' } else { '9' }
}

/// `n` written in decimal.
pub fn decimal_string(n: u32) -> (s: String)
    ensures
        s@ == decimal(n as nat),
    decreases n,
{
    let mut s = if n < 10 { String::new() } else { decimal_string(n / 10) };
    string_push(&mut s, digit_char(n % 10));
    s
}

/// A text node in the DOM.
pub struct Text(CachedNode);

/// Creates a new, detached [DOM text node](https://developer.mozilla.org/en-US/docs/Web/API/Text).
pub fn text(doc: &mut VirtDocument, s: &str) -> (r: Text)
    requires
        old(doc).wf(),
    ensures
        final(doc).wf(),
        r.memo_node() == old(doc)@.nodes.len(),
        final(doc)@.nodes == old(doc)@.with_new_node(DataView::Text(s@)),
{
    let n = doc.create_text_node(s);
    Text(CachedNode::new(n))
}

impl Memoized for Text {
    closed spec fn memo_node(&self) -> NodeId {
        self.0.node()
    }

    fn node(&self) -> (r: &CachedNode) {
        &self.0
    }
}

impl Node for Text {}

impl FlowContent for Text {}

impl PhrasingContent for Text {}

} // verus!
