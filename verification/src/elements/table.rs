//! The elements here are used to create and handle tabular data.

use vstd::prelude::*;
use crate::cached_node::CachedNode;
use crate::interfaces::element::{Element, ElementBuilder};
use crate::interfaces::html_element::HtmlElement;
use crate::interfaces::node::{Memoized, Node};
use crate::rsdom::{create_element, DataView, NodeId, VirtDocument};

verus! {

/// The [HTML Table Caption element (`<caption>`)][mdn] specifies the caption (or title) of a
/// table, and if used is *always* the first child of a [`<table>`][table].
///
/// [mdn]: https://developer.mozilla.org/en-US/docs/Web/HTML/Element/caption
/// [table]: https://developer.mozilla.org/en-US/docs/Web/HTML/Element/table
pub struct TableCaption {
    inner: CachedNode,
}

/// The [HTML Table Caption element (`<caption>`)][mdn] specifies the caption (or title) of a
/// table, and if used is *always* the first child of a [`<table>`][table].
///
/// [mdn]: https://developer.mozilla.org/en-US/docs/Web/HTML/Element/caption
/// [table]: https://developer.mozilla.org/en-US/docs/Web/HTML/Element/table
pub fn caption(doc: &mut VirtDocument) -> (r: TableCaption)
    requires
        old(doc).wf(),
    ensures
        final(doc).wf(),
        r.memo_node() == old(doc)@.nodes.len(),
        final(doc)@.nodes == old(doc)@.with_new_node(DataView::Elem { tag: "caption"@, attrs: Seq::empty() }),
{
    let n = create_element(doc, "caption");
    TableCaption { inner: CachedNode::new(n) }
}

impl Memoized for TableCaption {
    closed spec fn memo_node(&self) -> NodeId {
        self.inner.node()
    }

    fn node(&self) -> (r: &CachedNode) {
        &self.inner
    }
}

impl Node for TableCaption {}

impl Element for TableCaption {}

impl ElementBuilder for TableCaption {}

impl HtmlElement for TableCaption {}

/// The [HTML `<col>` element][mdn] defines a column within a table and is used for defining
/// common semantics on all common cells. It is generally found within a [`<colgroup>`][cg]
/// element.
///
/// [mdn]: https://developer.mozilla.org/en-US/docs/Web/HTML/Element/col
/// [cg]: https://developer.mozilla.org/en-US/docs/Web/HTML/Element/colgroup
pub struct TableColumn {
    inner: CachedNode,
}

/// The [HTML `<col>` element][mdn] defines a column within a table and is used for defining
/// common semantics on all common cells. It is generally found within a [`<colgroup>`][cg]
/// element.
///
/// [mdn]: https://developer.mozilla.org/en-US/docs/Web/HTML/Element/col
/// [cg]: https://developer.mozilla.org/en-US/docs/Web/HTML/Element/colgroup
pub fn col(doc: &mut VirtDocument) -> (r: TableColumn)
    requires
        old(doc).wf(),
    ensures
        final(doc).wf(),
        r.memo_node() == old(doc)@.nodes.len(),
        final(doc)@.nodes == old(doc)@.with_new_node(DataView::Elem { tag: "col"@, attrs: Seq::empty() }),
{
    let n = create_element(doc, "col");
    TableColumn { inner: CachedNode::new(n) }
}

impl Memoized for TableColumn {
    closed spec fn memo_node(&self) -> NodeId {
        self.inner.node()
    }

    fn node(&self) -> (r: &CachedNode) {
        &self.inner
    }
}

impl Node for TableColumn {}

impl Element for TableColumn {}

impl ElementBuilder for TableColumn {}

impl HtmlElement for TableColumn {}

/// The [HTML `<colgroup>` element][mdn] defines a group of columns within a table.
///
/// [mdn]: https://developer.mozilla.org/en-US/docs/Web/HTML/Element/colgroup
pub struct TableColumnGroup {
    inner: CachedNode,
}

/// The [HTML `<colgroup>` element][mdn] defines a group of columns within a table.
///
/// [mdn]: https://developer.mozilla.org/en-US/docs/Web/HTML/Element/colgroup
pub fn colgroup(doc: &mut VirtDocument) -> (r: TableColumnGroup)
    requires
        old(doc).wf(),
    ensures
        final(doc).wf(),
        r.memo_node() == old(doc)@.nodes.len(),
        final(doc)@.nodes == old(doc)@.with_new_node(DataView::Elem { tag: "colgroup"@, attrs: Seq::empty() }),
{
    let n = create_element(doc, "colgroup");
    TableColumnGroup { inner: CachedNode::new(n) }
}

impl Memoized for TableColumnGroup {
    closed spec fn memo_node(&self) -> NodeId {
        self.inner.node()
    }

    fn node(&self) -> (r: &CachedNode) {
        &self.inner
    }
}

impl Node for TableColumnGroup {}

impl Element for TableColumnGroup {}

impl ElementBuilder for TableColumnGroup {}

impl HtmlElement for TableColumnGroup {}

/// The [HTML `<table>` element][mdn] represents tabular data — that is, information presented
/// in a two-dimensional table comprised of rows and columns of cells containing data.
///
/// [mdn]: https://developer.mozilla.org/en-US/docs/Web/HTML/Element/table
pub struct Table {
    inner: CachedNode,
}

/// The [HTML `<table>` element][mdn] represents tabular data — that is, information presented
/// in a two-dimensional table comprised of rows and columns of cells containing data.
///
/// [mdn]: https://developer.mozilla.org/en-US/docs/Web/HTML/Element/table
pub fn table(doc: &mut VirtDocument) -> (r: Table)
    requires
        old(doc).wf(),
    ensures
        final(doc).wf(),
        r.memo_node() == old(doc)@.nodes.len(),
        final(doc)@.nodes == old(doc)@.with_new_node(DataView::Elem { tag: "table"@, attrs: Seq::empty() }),
{
    let n = create_element(doc, "table");
    Table { inner: CachedNode::new(n) }
}

impl Memoized for Table {
    closed spec fn memo_node(&self) -> NodeId {
        self.inner.node()
    }

    fn node(&self) -> (r: &CachedNode) {
        &self.inner
    }
}

impl Node for Table {}

impl Element for Table {}

impl ElementBuilder for Table {}

impl HtmlElement for Table {}

/// The [HTML Table Body element (`<tbody>`)][mdn] encapsulates a set of table rows
/// ([`<tr>`][tr] elements), indicating that they comprise the body of the table
/// ([`<table>`][table]).
///
/// [mdn]: https://developer.mozilla.org/en-US/docs/Web/HTML/Element/tbody
/// [tr]: https://developer.mozilla.org/en-US/docs/Web/HTML/Element/tr
/// [table]: https://developer.mozilla.org/en-US/docs/Web/HTML/Element/table
pub struct TableBody {
    inner: CachedNode,
}

/// The [HTML Table Body element (`<tbody>`)][mdn] encapsulates a set of table rows
/// ([`<tr>`][tr] elements), indicating that they comprise the body of the table
/// ([`<table>`][table]).
///
/// [mdn]: https://developer.mozilla.org/en-US/docs/Web/HTML/Element/tbody
/// [tr]: https://developer.mozilla.org/en-US/docs/Web/HTML/Element/tr
/// [table]: https://developer.mozilla.org/en-US/docs/Web/HTML/Element/table
pub fn tbody(doc: &mut VirtDocument) -> (r: TableBody)
    requires
        old(doc).wf(),
    ensures
        final(doc).wf(),
        r.memo_node() == old(doc)@.nodes.len(),
        final(doc)@.nodes == old(doc)@.with_new_node(DataView::Elem { tag: "tbody"@, attrs: Seq::empty() }),
{
    let n = create_element(doc, "tbody");
    TableBody { inner: CachedNode::new(n) }
}

impl Memoized for TableBody {
    closed spec fn memo_node(&self) -> NodeId {
        self.inner.node()
    }

    fn node(&self) -> (r: &CachedNode) {
        &self.inner
    }
}

impl Node for TableBody {}

impl Element for TableBody {}

impl ElementBuilder for TableBody {}

impl HtmlElement for TableBody {}

/// The [HTML `<td>` element][mdn] defines a cell of a table that contains data. It participates
/// in the *table model*.
///
/// [mdn]: https://developer.mozilla.org/en-US/docs/Web/HTML/Element/td
pub struct TableCell {
    inner: CachedNode,
}

/// The [HTML `<td>` element][mdn] defines a cell of a table that contains data. It participates
/// in the *table model*.
///
/// [mdn]: https://developer.mozilla.org/en-US/docs/Web/HTML/Element/td
pub fn td(doc: &mut VirtDocument) -> (r: TableCell)
    requires
        old(doc).wf(),
    ensures
        final(doc).wf(),
        r.memo_node() == old(doc)@.nodes.len(),
        final(doc)@.nodes == old(doc)@.with_new_node(DataView::Elem { tag: "td"@, attrs: Seq::empty() }),
{
    let n = create_element(doc, "td");
    TableCell { inner: CachedNode::new(n) }
}

impl Memoized for TableCell {
    closed spec fn memo_node(&self) -> NodeId {
        self.inner.node()
    }

    fn node(&self) -> (r: &CachedNode) {
        &self.inner
    }
}

impl Node for TableCell {}

impl Element for TableCell {}

impl ElementBuilder for TableCell {}

impl HtmlElement for TableCell {}

/// The [HTML `<tfoot>` element][mdn] defines a set of rows summarizing the columns of the
/// table.
///
/// [mdn]: https://developer.mozilla.org/en-US/docs/Web/HTML/Element/tfoot
pub struct TableFooter {
    inner: CachedNode,
}

/// The [HTML `<tfoot>` element][mdn] defines a set of rows summarizing the columns of the
/// table.
///
/// [mdn]: https://developer.mozilla.org/en-US/docs/Web/HTML/Element/tfoot
pub fn tfoot(doc: &mut VirtDocument) -> (r: TableFooter)
    requires
        old(doc).wf(),
    ensures
        final(doc).wf(),
        r.memo_node() == old(doc)@.nodes.len(),
        final(doc)@.nodes == old(doc)@.with_new_node(DataView::Elem { tag: "tfoot"@, attrs: Seq::empty() }),
{
    let n = create_element(doc, "tfoot");
    TableFooter { inner: CachedNode::new(n) }
}

impl Memoized for TableFooter {
    closed spec fn memo_node(&self) -> NodeId {
        self.inner.node()
    }

    fn node(&self) -> (r: &CachedNode) {
        &self.inner
    }
}

impl Node for TableFooter {}

impl Element for TableFooter {}

impl ElementBuilder for TableFooter {}

impl HtmlElement for TableFooter {}

/// The [HTML `<th>` element][mdn] defines a cell as header of a group of table cells. The exact
/// nature of this group is defined by the [`scope`][scope] and [`headers`][headers] attributes.
///
/// [mdn]: https://developer.mozilla.org/en-US/docs/Web/HTML/Element/th
/// [scope]: https://developer.mozilla.org/en-US/docs/Web/HTML/Element/th#attr-scope
/// [headers]: https://developer.mozilla.org/en-US/docs/Web/HTML/Element/th#attr-headers
pub struct TableHeaderCell {
    inner: CachedNode,
}

/// The [HTML `<th>` element][mdn] defines a cell as header of a group of table cells. The exact
/// nature of this group is defined by the [`scope`][scope] and [`headers`][headers] attributes.
///
/// [mdn]: https://developer.mozilla.org/en-US/docs/Web/HTML/Element/th
/// [scope]: https://developer.mozilla.org/en-US/docs/Web/HTML/Element/th#attr-scope
/// [headers]: https://developer.mozilla.org/en-US/docs/Web/HTML/Element/th#attr-headers
pub fn th(doc: &mut VirtDocument) -> (r: TableHeaderCell)
    requires
        old(doc).wf(),
    ensures
        final(doc).wf(),
        r.memo_node() == old(doc)@.nodes.len(),
        final(doc)@.nodes == old(doc)@.with_new_node(DataView::Elem { tag: "th"@, attrs: Seq::empty() }),
{
    let n = create_element(doc, "th");
    TableHeaderCell { inner: CachedNode::new(n) }
}

impl Memoized for TableHeaderCell {
    closed spec fn memo_node(&self) -> NodeId {
        self.inner.node()
    }

    fn node(&self) -> (r: &CachedNode) {
        &self.inner
    }
}

impl Node for TableHeaderCell {}

impl Element for TableHeaderCell {}

impl ElementBuilder for TableHeaderCell {}

impl HtmlElement for TableHeaderCell {}

/// The [HTML `<thead>` element][mdn] defines a set of rows defining the head of the columns of
/// the table.
///
/// [mdn]: https://developer.mozilla.org/en-US/docs/Web/HTML/Element/thead
pub struct TableHeader {
    inner: CachedNode,
}

/// The [HTML `<thead>` element][mdn] defines a set of rows defining the head of the columns of
/// the table.
///
/// [mdn]: https://developer.mozilla.org/en-US/docs/Web/HTML/Element/thead
pub fn thead(doc: &mut VirtDocument) -> (r: TableHeader)
    requires
        old(doc).wf(),
    ensures
        final(doc).wf(),
        r.memo_node() == old(doc)@.nodes.len(),
        final(doc)@.nodes == old(doc)@.with_new_node(DataView::Elem { tag: "thead"@, attrs: Seq::empty() }),
{
    let n = create_element(doc, "thead");
    TableHeader { inner: CachedNode::new(n) }
}

impl Memoized for TableHeader {
    closed spec fn memo_node(&self) -> NodeId {
        self.inner.node()
    }

    fn node(&self) -> (r: &CachedNode) {
        &self.inner
    }
}

impl Node for TableHeader {}

impl Element for TableHeader {}

impl ElementBuilder for TableHeader {}

impl HtmlElement for TableHeader {}

/// The [HTML `<tr>` element][mdn] defines a row of cells in a table. The row's cells can then
/// be established using a mix of [`<td>`][td] (data cell) and [`<th>`][th] (header cell)
/// elements.
///
/// [mdn]: https://developer.mozilla.org/en-US/docs/Web/HTML/Element/tr
/// [td]: https://developer.mozilla.org/en-US/docs/Web/HTML/Element/td
/// [th]: https://developer.mozilla.org/en-US/docs/Web/HTML/Element/th
pub struct TableRow {
    inner: CachedNode,
}

/// The [HTML `<tr>` element][mdn] defines a row of cells in a table. The row's cells can then
/// be established using a mix of [`<td>`][td] (data cell) and [`<th>`][th] (header cell)
/// elements.
///
/// [mdn]: https://developer.mozilla.org/en-US/docs/Web/HTML/Element/tr
/// [td]: https://developer.mozilla.org/en-US/docs/Web/HTML/Element/td
/// [th]: https://developer.mozilla.org/en-US/docs/Web/HTML/Element/th
pub fn tr(doc: &mut VirtDocument) -> (r: TableRow)
    requires
        old(doc).wf(),
    ensures
        final(doc).wf(),
        r.memo_node() == old(doc)@.nodes.len(),
        final(doc)@.nodes == old(doc)@.with_new_node(DataView::Elem { tag: "tr"@, attrs: Seq::empty() }),
{
    let n = create_element(doc, "tr");
    TableRow { inner: CachedNode::new(n) }
}

impl Memoized for TableRow {
    closed spec fn memo_node(&self) -> NodeId {
        self.inner.node()
    }

    fn node(&self) -> (r: &CachedNode) {
        &self.inner
    }
}

impl Node for TableRow {}

impl Element for TableRow {}

impl ElementBuilder for TableRow {}

impl HtmlElement for TableRow {}

} // verus!
