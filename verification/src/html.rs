//! Rendering virtual nodes as HTML, through `quick_xml`'s writer, and
//! collecting their text.

use vstd::prelude::*;
use vstd::utf8::*;
use vstd::string::*;
use crate::rsdom::{attrs_view, DataView, DocView, NodeId, VirtData, VirtDocument};
use crate::xml::{
    end_tag_bytes, line_break_bytes, start_tag_bytes,
    end_tag_chars, escape_chars, lemma_encode_concat, lemma_end_encode, lemma_escape_encode,
    lemma_line_break_encode, lemma_start_encode, line_break_chars, start_tag_chars, xml_indentation,
    xml_write_event, xml_writer_into_bytes, xml_writer_new, XmlEvent,
    xml_writer_new_with_indent, xml_written, string_from_utf8, XmlWriter,
};

verus! {

/// The indentation state of an XML writer (see [`xml_indentation`]).
pub type Indent = Option<(u8, usize, usize, bool)>;

/// The state with the "line break owed" flag set to `lb`.
pub open spec fn with_line_break(ind: Indent, lb: bool) -> Indent {
    match ind {
        Some((ch, step, width, _)) => Some((ch, step, width, lb)),
        None => None,
    }
}

/// The state inside an element: one step deeper, a line break owed.
pub open spec fn grown(ind: Indent) -> Indent {
    match ind {
        Some((ch, step, width, _)) => Some((ch, step, (width + step) as usize, true)),
        None => None,
    }
}

/// The state before an end tag: one step shallower (not below zero).
pub open spec fn shrunk(ind: Indent) -> Indent {
    match ind {
        Some((ch, step, width, lb)) => Some((ch, step, if width >= step { (width - step) as usize } else { 0usize }, lb)),
        None => None,
    }
}

/// The state after node `n` has been written from state `ind`: a line break
/// is owed after an element, not after text.
pub open spec fn after_node(v: DocView, n: NodeId, ind: Indent) -> Indent {
    with_line_break(ind, v.is_elem(n))
}

/// The state after the children of `n` from index `i` on were written from
/// state `ind`.
pub open spec fn after_children(v: DocView, n: NodeId, i: int, ind: Indent) -> Indent {
    let cs = v.children(n);
    if i < cs.len() { after_node(v, cs[cs.len() - 1], ind) } else { ind }
}

/// The markup of node `n` written from writer state `ind`: text is escaped;
/// an element is its start tag, its children, and its end tag, where (when
/// indenting) each tag that follows a tag starts on a new line indented by its
/// nesting depth.
pub open spec fn render(v: DocView, n: NodeId, ind: Indent) -> Seq<char>
    decreases v.rank[n as int], 1nat, 0nat,
{
    match v.nodes[n as int].data {
        DataView::Text(t) => escape_chars(t),
        DataView::Elem { tag, attrs } => {
            let inner = grown(ind);
            line_break_chars(ind) + start_tag_chars(tag, attrs) + render_children(v, n, 0, inner)
                + line_break_chars(shrunk(after_children(v, n, 0, inner))) + end_tag_chars(tag)
        },
    }
}

/// The markup of the children of `n` from index `i` on.
pub open spec fn render_children(v: DocView, n: NodeId, i: nat, ind: Indent) -> Seq<char>
    decreases v.rank[n as int], 0nat, v.children(n).len() - i,
{
    let cs = v.children(n);
    if i < cs.len() {
        let c = cs[i as int];
        (if v.rank[c as int] < v.rank[n as int] { render(v, c, ind) } else { Seq::empty() })
            + render_children(v, n, i + 1, after_node(v, c, ind))
    } else {
        Seq::empty()
    }
}

/// The number of element levels in the subtree of `n` (0 for text).
pub open spec fn elem_depth(v: DocView, n: NodeId) -> nat
    decreases v.rank[n as int], 1nat, 0nat,
{
    match v.nodes[n as int].data {
        DataView::Text(_) => 0,
        DataView::Elem { .. } => 1 + children_depth(v, n, 0),
    }
}

/// The greatest element depth among the children of `n` from index `i` on.
pub open spec fn children_depth(v: DocView, n: NodeId, i: nat) -> nat
    decreases v.rank[n as int], 0nat, v.children(n).len() - i,
{
    let cs = v.children(n);
    if i < cs.len() {
        let c = cs[i as int];
        let d = if v.rank[c as int] < v.rank[n as int] { elem_depth(v, c) } else { 0 };
        let rest = children_depth(v, n, i + 1);
        if d > rest { d } else { rest }
    } else {
        0
    }
}

/// HTML without newlines or indentation.
pub open spec fn outer_html(v: DocView, n: NodeId) -> Seq<char> {
    render(v, n, None)
}

/// HTML where nested tags are indented by `indent` spaces per level.
pub open spec fn pretty_outer_html(v: DocView, n: NodeId, indent: usize) -> Seq<char> {
    render(v, n, Some((32u8, indent, 0usize, false)))
}

/// The text of node `n` and its descendants, in document order.
pub open spec fn text_content(v: DocView, n: NodeId) -> Seq<char>
    decreases v.rank[n as int], 1nat, 0nat,
{
    match v.nodes[n as int].data {
        DataView::Text(t) => t,
        DataView::Elem { .. } => children_text(v, n, 0),
    }
}

/// The rendered text of an element: the text of its descendants in document
/// order. Only elements have one; for a text node it is empty.
pub open spec fn inner_text(v: DocView, n: NodeId) -> Seq<char> {
    match v.nodes[n as int].data {
        DataView::Text(_) => Seq::empty(),
        DataView::Elem { .. } => children_text(v, n, 0),
    }
}

/// The text of the children of `n` from index `i` on.
pub open spec fn children_text(v: DocView, n: NodeId, i: nat) -> Seq<char>
    decreases v.rank[n as int], 0nat, v.children(n).len() - i,
{
    let cs = v.children(n);
    if i < cs.len() {
        let c = cs[i as int];
        (if v.rank[c as int] < v.rank[n as int] { text_content(v, c) } else { Seq::empty() })
            + children_text(v, n, i + 1)
    } else {
        Seq::empty()
    }
}

/// The writer state is one that write_xml can start from for node `n`.
pub open spec fn fits(v: DocView, n: NodeId, ind: Indent) -> bool {
    match ind {
        Some((ch, step, width, _)) => ch == 32 && width + step * elem_depth(v, n) <= usize::MAX,
        None => true,
    }
}

proof fn lemma_child_rank(v: DocView, n: NodeId, i: int)
    requires
        v.wf(),
        v.valid(n),
        0 <= i < v.children(n).len(),
    ensures
        v.valid(v.children(n)[i]),
        v.rank[v.children(n)[i] as int] < v.rank[n as int],
        v.parent(v.children(n)[i]) == Some(n),
{
    assert(v.nodes[n as int].children[i] == v.children(n)[i]);
}

proof fn lemma_children_depth(v: DocView, n: NodeId, i: nat, j: int)
    requires
        v.wf(),
        v.valid(n),
        i <= j < v.children(n).len(),
    ensures
        elem_depth(v, v.children(n)[j]) <= children_depth(v, n, i),
    decreases v.children(n).len() - i,
{
    lemma_child_rank(v, n, j);
    if i < j {
        lemma_children_depth(v, n, i + 1, j);
    }
}

proof fn lemma_mul_mono(s: usize, a: nat, b: nat)
    requires
        a <= b,
    ensures
        s * a <= s * b,
        s * (a + 1) == s + s * a,
{
    assert(s * a <= s * b) by (nonlinear_arith)
        requires
            a <= b,
    ;
    assert(s * (a + 1) == s + s * a) by (nonlinear_arith);
}

proof fn lemma_encode5(a: Seq<char>, b: Seq<char>, c: Seq<char>, d: Seq<char>, e: Seq<char>)
    ensures
        encode_utf8(a + b + c + d + e) == encode_utf8(a) + encode_utf8(b) + encode_utf8(c) + encode_utf8(d)
            + encode_utf8(e),
{
    lemma_encode_concat(a, b);
    lemma_encode_concat(a + b, c);
    lemma_encode_concat(a + b + c, d);
    lemma_encode_concat(a + b + c + d, e);
}

/// The encoded markup of an element, piece by piece.
proof fn lemma_render_elem(v: DocView, n: NodeId, ind: Indent)
    requires
        v.nodes[n as int].data is Elem,
        ind matches Some((ch, _, _, _)) ==> ch == 32,
    ensures
        ({
            let tag = v.nodes[n as int].data->tag;
            let attrs = v.nodes[n as int].data->attrs;
            let inner = grown(ind);
            encode_utf8(render(v, n, ind)) == line_break_bytes(ind) + start_tag_bytes(tag, attrs)
                + encode_utf8(render_children(v, n, 0, inner))
                + line_break_bytes(shrunk(after_children(v, n, 0, inner))) + end_tag_bytes(tag)
        }),
{
    let tag = v.nodes[n as int].data->tag;
    let attrs = v.nodes[n as int].data->attrs;
    let inner = grown(ind);
    let lb1 = line_break_chars(ind);
    let st = start_tag_chars(tag, attrs);
    let ch = render_children(v, n, 0, inner);
    let lb2 = line_break_chars(shrunk(after_children(v, n, 0, inner)));
    let en = end_tag_chars(tag);
    lemma_line_break_encode(ind);
    lemma_start_encode(tag, attrs);
    lemma_line_break_encode(shrunk(after_children(v, n, 0, inner)));
    lemma_end_encode(tag);
    lemma_encode5(lb1, st, ch, lb2, en);
    assert(render(v, n, ind) == lb1 + st + ch + lb2 + en);
}

/// `d`, or `usize::MAX` when `d` does not fit.
pub open spec fn saturated(d: nat) -> usize {
    if d <= usize::MAX { d as usize } else { usize::MAX }
}

impl VirtDocument {
    /// The number of elements on the longest downward path from `n` (0 for a
    /// text node), or `usize::MAX` when that does not fit: the bound that
    /// [`VirtDocument::pretty_outer_html`] asks of the indentation.
    pub fn element_depth(&self, n: NodeId) -> (r: usize)
        requires
            self.wf(),
            self@.valid(n),
        ensures
            r == saturated(elem_depth(self@, n)),
        decreases self@.rank[n as int], 1nat, 0nat,
    {
        if self.is_element(n) {
            let d = self.children_depth_from(n, 0);
            if d == usize::MAX { usize::MAX } else { d + 1 }
        } else {
            0
        }
    }

    fn children_depth_from(&self, n: NodeId, i: usize) -> (r: usize)
        requires
            self.wf(),
            self@.valid(n),
            i <= self@.children(n).len(),
        ensures
            r == saturated(children_depth(self@, n, i as nat)),
        decreases self@.rank[n as int], 0nat, self@.children(n).len() - i,
    {
        let children = self.children(n);
        if i < children.len() {
            let c = children[i];
            proof { lemma_child_rank(self@, n, i as int); }
            let d = self.element_depth(c);
            let rest = self.children_depth_from(n, i + 1);
            if d > rest { d } else { rest }
        } else {
            0
        }
    }

    /// Writes node `n` and its subtree through the writer.
    #[verifier::spinoff_prover]
    #[verifier::rlimit(50)]
    pub fn write_xml(&self, n: NodeId, w: &mut XmlWriter)
        requires
            self.wf(),
            self@.valid(n),
            fits(self@, n, xml_indentation(*old(w))),
        ensures
            xml_written(*final(w)) == xml_written(*old(w)) + encode_utf8(render(self@, n, xml_indentation(*old(w)))),
            xml_indentation(*final(w)) == after_node(self@, n, xml_indentation(*old(w))),
        decreases self@.rank[n as int], 1nat, 0nat,
    {
        let ghost v = self@;
        let ghost ind = xml_indentation(*w);
        let ghost w0 = xml_written(*w);
        match self.data(n) {
            VirtData::Text(t) => {
                xml_write_event(w, XmlEvent::Text(t));
                proof { lemma_escape_encode(t@); }
            },
            VirtData::Elem { tag, attrs } => {
                proof {
                    if let Some((ch, step, width, lb)) = ind {
                        let cd = children_depth(v, n, 0);
                        assert(elem_depth(v, n) == cd + 1);
                        lemma_mul_mono(step, cd, cd);
                    }
                }
                xml_write_event(w, XmlEvent::Start(tag, attrs));
                let ghost w1 = xml_written(*w);
                let ghost inner = grown(ind);
                assert(xml_indentation(*w) == inner);
                self.write_children(n, 0, w);
                let ghost w2 = xml_written(*w);
                assert(xml_indentation(*w) == after_children(v, n, 0, inner));
                xml_write_event(w, XmlEvent::End(tag));
                proof {
                    lemma_render_elem(v, n, ind);
                    assert(xml_written(*w) =~= w0 + encode_utf8(render(v, n, ind)));
                    if let Some((c0, step, width, lb)) = ind {
                        assert(xml_indentation(*w) == Some((c0, step, width, true)));
                    }
                }
            },
        }
    }


    fn render_with(&self, n: NodeId, w: XmlWriter) -> (r: String)
        requires
            self.wf(),
            self@.valid(n),
            fits(self@, n, xml_indentation(w)),
            xml_written(w) == Seq::<u8>::empty(),
        ensures
            r@ == render(self@, n, xml_indentation(w)),
    {
        let ghost ind = xml_indentation(w);
        let mut w = w;
        self.write_xml(n, &mut w);
        let bytes = xml_writer_into_bytes(w);
        proof {
            let s = render(self@, n, ind);
            assert(bytes@ =~= encode_utf8(s));
            vstd::utf8::encode_utf8_valid_utf8(s);
            vstd::utf8::encode_utf8_decode_utf8(s);
        }
        match string_from_utf8(bytes) {
            Some(s) => s,
            None => String::new(),
        }
    }

    /// Returns a string of serialized XML without newlines or indentation.
    pub fn outer_html(&self, n: NodeId) -> (r: String)
        requires
            self.wf(),
            self@.valid(n),
        ensures
            r@ == outer_html(self@, n),
    {
        let w = xml_writer_new();
        self.render_with(n, w)
    }

    /// Returns a string of "prettified" serialized XML with the provided
    /// indentation.
    pub fn pretty_outer_html(&self, n: NodeId, indent: usize) -> (r: String)
        requires
            self.wf(),
            self@.valid(n),
            indent * elem_depth(self@, n) <= usize::MAX,
        ensures
            r@ == pretty_outer_html(self@, n, indent),
    {
        let w = xml_writer_new_with_indent(indent);
        self.render_with(n, w)
    }

    /// Represents the "rendered" text content of a node and its descendants:
    /// the text of an element's descendants in document order, which
    /// approximates what a user would copy from the rendered element. Text
    /// nodes, which are not elements, have none.
    pub fn get_inner_text(&self, n: NodeId) -> (r: String)
        requires
            self.wf(),
            self@.valid(n),
        ensures
            r@ == inner_text(self@, n),
    {
        match self.data(n) {
            VirtData::Text(_) => String::new(),
            VirtData::Elem { .. } => {
                let mut out = String::new();
                self.children_text(n, 0, &mut out);
                assert(out@ =~= inner_text(self@, n));
                out
            },
        }
    }

    /// The text of this node and its descendants, in document order.
    fn text_content(&self, n: NodeId) -> (r: String)
        requires
            self.wf(),
            self@.valid(n),
        ensures
            r@ == text_content(self@, n),
        decreases self@.rank[n as int], 1nat, 0nat,
    {
        match self.data(n) {
            VirtData::Text(t) => t.clone(),
            VirtData::Elem { .. } => {
                let mut out = String::new();
                self.children_text(n, 0, &mut out);
                assert(out@ =~= text_content(self@, n));
                out
            },
        }
    }

    fn children_text(&self, n: NodeId, i: usize, out: &mut String)
        requires
            self.wf(),
            self@.valid(n),
            i <= self@.children(n).len(),
        ensures
            final(out)@ == old(out)@ + children_text(self@, n, i as nat),
        decreases self@.rank[n as int], 0nat, self@.children(n).len() - i,
    {
        let children = self.children(n);
        if i < children.len() {
            let c = children[i];
            proof { lemma_child_rank(self@, n, i as int); }
            let t = self.text_content(c);
            out.append(t.as_str());
            self.children_text(n, i + 1, out);
            assert(out@ =~= old(out)@ + children_text(self@, n, i as nat));
        } else {
            assert(out@ =~= old(out)@ + children_text(self@, n, i as nat));
        }
    }

    /// Writes the children of `n` from index `i` on.
    fn write_children(&self, n: NodeId, i: usize, w: &mut XmlWriter)
        requires
            self.wf(),
            self@.valid(n),
            self@.is_elem(n),
            i <= self@.children(n).len(),
            match xml_indentation(*old(w)) {
                Some((ch, step, width, _)) => ch == 32 && width + step * children_depth(self@, n, i as nat) <= usize::MAX,
                None => true,
            },
        ensures
            xml_written(*final(w)) == xml_written(*old(w)) + encode_utf8(render_children(self@, n, i as nat, xml_indentation(*old(w)))),
            xml_indentation(*final(w)) == after_children(self@, n, i as int, xml_indentation(*old(w))),
        decreases self@.rank[n as int], 0nat, self@.children(n).len() - i,
    {
        let ghost v = self@;
        let ghost ind = xml_indentation(*w);
        let ghost w0 = xml_written(*w);
        let children = self.children(n);
        if i < children.len() {
            let c = children[i];
            proof {
                lemma_child_rank(v, n, i as int);
                lemma_children_depth(v, n, i as nat, i as int);
                if let Some((c0, step, width, lb)) = ind {
                    lemma_mul_mono(step, elem_depth(v, c), children_depth(v, n, i as nat));
                    lemma_mul_mono(step, children_depth(v, n, (i + 1) as nat), children_depth(v, n, i as nat));
                }
            }
            self.write_xml(c, w);
            let ghost w1 = xml_written(*w);
            proof {
                if let Some((ch, step, width, lb)) = ind {
                    if v.is_elem(c) {
                        assert(xml_indentation(*w) == Some((ch, step, width, true)));
                    }
                }

            }
            self.write_children(n, i + 1, w);
            proof {
                let a = render(v, c, ind);
                let b = render_children(v, n, (i + 1) as nat, after_node(v, c, ind));
                lemma_encode_concat(a, b);
                assert(render_children(v, n, i as nat, ind) == a + b);
                assert(xml_written(*w) =~= w0 + encode_utf8(render_children(v, n, i as nat, ind)));
            }
        } else {
            proof {
                assert(encode_utf8(Seq::<char>::empty()) =~= Seq::<u8>::empty());
                assert(xml_written(*w) =~= w0 + encode_utf8(render_children(v, n, i as nat, ind)));
            }
        }
    }
}

} // verus!
