//! An in-memory emulation of the web's DOM. Nodes live in a [`VirtDocument`]
//! and are addressed by their index in it.

use vstd::prelude::*;

verus! {

/// The handle of a node: its index in the [`VirtDocument`] that holds it.
pub type NodeId = usize;

/// The data of a node in the virtual DOM tree.
pub enum VirtData {
    /// A virtual element.
    Elem {
        /// The element's tag.
        tag: String,
        /// The element's attributes, in insertion order.
        attrs: Vec<(String, String)>,
    },
    /// A virtual text node.
    Text(String),
}

/// A node in the "virtual DOM".
pub struct VirtNode {
    parent: Option<NodeId>,
    children: Vec<NodeId>,
    data: VirtData,
}

/// Tracks a mutation in the virtual DOM tree. Currently unimplemented.
pub struct Mutation {}

/// A document of virtual nodes. Every node created by the document stays in it;
/// detached nodes are simply nodes without a parent.
pub struct VirtDocument {
    nodes: Vec<VirtNode>,
    /// A bound on the height of each node's subtree: a child's rank is always
    /// below its parent's, which keeps the parent relation acyclic.
    rank: Ghost<Seq<nat>>,
}

/// The abstract content of a node.
pub enum DataView {
    Elem { tag: Seq<char>, attrs: Seq<(Seq<char>, Seq<char>)> },
    Text(Seq<char>),
}

/// The abstract state of one node.
pub struct NodeView {
    pub parent: Option<NodeId>,
    pub children: Seq<NodeId>,
    pub data: DataView,
}

/// The abstract state of a document: its nodes, and the rank of each node
/// (a bound on the height of its subtree).
pub struct DocView {
    pub nodes: Seq<NodeView>,
    pub rank: Seq<nat>,
}

pub open spec fn attrs_view(attrs: Seq<(String, String)>) -> Seq<(Seq<char>, Seq<char>)> {
    attrs.map_values(|a: (String, String)| (a.0@, a.1@))
}

impl View for VirtData {
    type V = DataView;

    open spec fn view(&self) -> DataView {
        match self {
            VirtData::Elem { tag, attrs } => DataView::Elem { tag: tag@, attrs: attrs_view(attrs@) },
            VirtData::Text(t) => DataView::Text(t@),
        }
    }
}

impl View for VirtNode {
    type V = NodeView;

    closed spec fn view(&self) -> NodeView {
        NodeView { parent: self.parent, children: self.children@, data: self.data@ }
    }
}

impl View for VirtDocument {
    type V = DocView;

    closed spec fn view(&self) -> DocView {
        DocView { nodes: self.nodes@.map_values(|n: VirtNode| n@), rank: self.rank@ }
    }
}

/// Index of the first attribute called `name`, if any.
pub open spec fn is_first_attr(attrs: Seq<(Seq<char>, Seq<char>)>, name: Seq<char>, i: int) -> bool {
    &&& 0 <= i < attrs.len()
    &&& attrs[i].0 == name
    &&& forall|j: int| 0 <= j < i ==> attrs[j].0 != name
}

pub open spec fn has_attr(attrs: Seq<(Seq<char>, Seq<char>)>, name: Seq<char>) -> bool {
    exists|i: int| #[trigger] is_first_attr(attrs, name, i)
}

/// The value of the first attribute called `name`.
pub open spec fn lookup_attr(attrs: Seq<(Seq<char>, Seq<char>)>, name: Seq<char>) -> Option<Seq<char>> {
    if has_attr(attrs, name) {
        Some(attrs[choose|i: int| is_first_attr(attrs, name, i)].1)
    } else {
        None
    }
}

/// Setting an attribute overwrites the value of the first attribute with
/// that name, or appends a new attribute when there is none.
pub open spec fn update_attr(attrs: Seq<(Seq<char>, Seq<char>)>, name: Seq<char>, value: Seq<char>) -> Seq<(Seq<char>, Seq<char>)> {
    if has_attr(attrs, name) {
        attrs.update(choose|i: int| is_first_attr(attrs, name, i), (name, value))
    } else {
        attrs.push((name, value))
    }
}

/// Removing an attribute drops every attribute with that name.
pub open spec fn drop_attr(attrs: Seq<(Seq<char>, Seq<char>)>, name: Seq<char>) -> Seq<(Seq<char>, Seq<char>)> {
    attrs.filter(|a: (Seq<char>, Seq<char>)| a.0 != name)
}

impl DataView {
    pub open spec fn is_elem(self) -> bool {
        self is Elem
    }

    pub open spec fn attrs(self) -> Seq<(Seq<char>, Seq<char>)> {
        match self {
            DataView::Elem { attrs, .. } => attrs,
            DataView::Text(_) => Seq::empty(),
        }
    }
}

impl DocView {
    pub open spec fn len(self) -> nat {
        self.nodes.len()
    }

    pub open spec fn valid(self, n: NodeId) -> bool {
        n < self.nodes.len()
    }

    pub open spec fn node(self, n: NodeId) -> NodeView {
        self.nodes[n as int]
    }

    pub open spec fn children(self, n: NodeId) -> Seq<NodeId> {
        self.nodes[n as int].children
    }

    pub open spec fn parent(self, n: NodeId) -> Option<NodeId> {
        self.nodes[n as int].parent
    }

    pub open spec fn is_elem(self, n: NodeId) -> bool {
        self.nodes[n as int].data is Elem
    }

    /// Well-formedness: children and parents are valid handles and agree with
    /// each other, no child list repeats a node, text nodes have no children,
    /// and each child ranks below its parent.
    pub open spec fn wf(self) -> bool {
        &&& self.rank.len() == self.nodes.len()
        &&& self.nodes.len() <= usize::MAX
        &&& forall|p: int, i: int|
            0 <= p < self.nodes.len() && 0 <= i < self.nodes[p].children.len() ==> {
                let c = #[trigger] self.nodes[p].children[i];
                &&& c < self.nodes.len()
                &&& self.rank[c as int] < self.rank[p]
                &&& self.nodes[c as int].parent == Some(p as NodeId)
            }
        &&& forall|c: int|
            0 <= c < self.nodes.len() && (#[trigger] self.nodes[c].parent) is Some ==> {
                let p = self.nodes[c].parent->0;
                &&& p < self.nodes.len()
                &&& self.nodes[p as int].children.contains(c as NodeId)
            }
        &&& forall|p: int|
            0 <= p < self.nodes.len() ==> (#[trigger] self.nodes[p].children).no_duplicates()
        &&& forall|p: int|
            0 <= p < self.nodes.len() && (#[trigger] self.nodes[p].data) is Text
                ==> self.nodes[p].children.len() == 0
    }


    /// `s` is a downward path: each node after the first is a child of the one before.
    pub open spec fn is_path(self, s: Seq<NodeId>) -> bool {
        &&& s.len() >= 1
        &&& forall|i: int| 0 <= i < s.len() ==> self.valid(#[trigger] s[i])
        &&& forall|i: int| 1 <= i < s.len() ==> self.parent(#[trigger] s[i]) == Some(s[i - 1])
    }

    /// `x` is `a` or one of its descendants.
    pub open spec fn contains(self, a: NodeId, x: NodeId) -> bool {
        exists|s: Seq<NodeId>| #[trigger] self.is_path(s) && s[0] == a && s.last() == x
    }

    /// The nodes after taking `c` out of its parent's children.
    pub open spec fn detach(self, c: NodeId) -> Seq<NodeView> {
        match self.parent(c) {
            None => self.nodes,
            Some(q) => {
                let qn = self.nodes[q as int];
                let cn = self.nodes[c as int];
                self.nodes.update(
                    q as int,
                    NodeView { parent: qn.parent, children: qn.children.remove(qn.children.index_of(c)), data: qn.data },
                ).update(c as int, NodeView { parent: None, children: cn.children, data: cn.data })
            },
        }
    }

    /// The nodes after moving `c` to the end of `p`'s children.
    pub open spec fn append(self, p: NodeId, c: NodeId) -> Seq<NodeView> {
        let d = self.detach(c);
        let pn = d[p as int];
        let cn = d[c as int];
        d.update(p as int, NodeView { parent: pn.parent, children: pn.children.push(c), data: pn.data })
            .update(c as int, NodeView { parent: Some(p), children: cn.children, data: cn.data })
    }

    /// The nodes after `new` takes the place of `existing` among `p`'s children.
    pub open spec fn replace(self, p: NodeId, new: NodeId, existing: NodeId) -> Seq<NodeView> {
        if new == existing {
            self.nodes
        } else {
            let d = self.detach(new);
            let pn = d[p as int];
            let nn = d[new as int];
            let en = d[existing as int];
            d.update(p as int, NodeView { parent: pn.parent, children: pn.children.update(pn.children.index_of(existing), new), data: pn.data })
                .update(new as int, NodeView { parent: Some(p), children: nn.children, data: nn.data })
                .update(existing as int, NodeView { parent: None, children: en.children, data: en.data })
        }
    }

    /// The ranks after moving the subtree of `c`: nodes outside it are lifted
    /// above it.
    pub open spec fn lifted_rank(self, c: NodeId) -> Seq<nat> {
        Seq::new(self.rank.len(), |x: int| if self.contains(c, x as NodeId) { self.rank[x] } else { self.rank[x] + self.rank[c as int] + 1 })
    }

    pub open spec fn first_child(self, n: NodeId) -> Option<NodeId> {
        if self.children(n).len() > 0 { Some(self.children(n)[0]) } else { None }
    }

    pub open spec fn next_sibling(self, n: NodeId) -> Option<NodeId> {
        match self.parent(n) {
            None => None,
            Some(p) => {
                let cs = self.children(p);
                let i = cs.index_of(n);
                if i + 1 < cs.len() { Some(cs[i + 1]) } else { None }
            },
        }
    }

    /// The document after adding a detached node with the given content.
    pub open spec fn with_new_node(self, data: DataView) -> Seq<NodeView> {
        self.nodes.push(NodeView { parent: None, children: Seq::empty(), data })
    }

    /// The document's nodes after replacing the attributes of element `n`.
    pub open spec fn with_attrs(self, n: NodeId, attrs: Seq<(Seq<char>, Seq<char>)>) -> Seq<NodeView> {
        let node = self.nodes[n as int];
        match node.data {
            DataView::Elem { tag, .. } => self.nodes.update(
                n as int,
                NodeView { parent: node.parent, children: node.children, data: DataView::Elem { tag, attrs } },
            ),
            DataView::Text(_) => self.nodes,
        }
    }

    /// The nodes after setting attribute `name` of element `n` to `value`.
    pub open spec fn set_attr(self, n: NodeId, name: Seq<char>, value: Seq<char>) -> Seq<NodeView> {
        self.with_attrs(n, update_attr(self.nodes[n as int].data.attrs(), name, value))
    }

    /// The value of attribute `name` on node `n`; text nodes have none.
    pub open spec fn attribute(self, n: NodeId, name: Seq<char>) -> Option<Seq<char>> {
        match self.nodes[n as int].data {
            DataView::Elem { attrs, .. } => lookup_attr(attrs, name),
            DataView::Text(_) => None,
        }
    }
}


pub proof fn lemma_index_of_unique(s: Seq<NodeId>, x: NodeId, i: int)
    requires
        s.no_duplicates(),
        0 <= i < s.len(),
        s[i] == x,
    ensures
        s.index_of(x) == i,
{
    assert(s.contains(x));
    let j = s.index_of(x);
    assert(0 <= j < s.len() && s[j] == x);
}

impl DocView {
    proof fn lemma_path_push(self, s: Seq<NodeId>, y: NodeId)
        requires
            self.is_path(s),
            self.valid(y),
            self.parent(y) == Some(s.last()),
        ensures
            self.is_path(s.push(y)),
    {
        let t = s.push(y);
        assert forall|i: int| 0 <= i < t.len() implies self.valid(#[trigger] t[i]) by {
            if i < s.len() {
                assert(t[i] == s[i]);
            }
        }
        assert forall|i: int| 1 <= i < t.len() implies self.parent(#[trigger] t[i]) == Some(t[i - 1]) by {
            if i < s.len() {
                assert(t[i] == s[i]);
                assert(self.parent(s[i]) == Some(s[i - 1]));
            }
        }
    }

    pub proof fn lemma_contains_self(self, a: NodeId)
        requires
            self.valid(a),
        ensures
            self.contains(a, a),
    {
        let s = seq![a];
        assert(self.is_path(s) && s[0] == a && s.last() == a);
    }


    /// Ranks fall strictly along a downward path.
    pub proof fn lemma_path_rank(self, s: Seq<NodeId>)
        requires
            self.wf(),
            self.is_path(s),
            s.len() >= 2,
        ensures
            self.rank[s.last() as int] < self.rank[s[0] as int],
        decreases s.len(),
    {
        let x = s[s.len() - 2];
        let y = s.last();
        assert(self.parent(s[s.len() - 1]) == Some(s[s.len() - 2]));
        assert(self.valid(x) && self.valid(y));
        assert(self.nodes[x as int].children.contains(y));
        let i = choose|i: int| 0 <= i < self.nodes[x as int].children.len() && self.nodes[x as int].children[i] == y;
        assert(self.nodes[x as int].children[i] == y);
        if s.len() > 2 {
            let t = s.drop_last();
            assert forall|i: int| 0 <= i < t.len() implies self.valid(#[trigger] t[i]) by {
                assert(t[i] == s[i]);
            }
            assert forall|i: int| 1 <= i < t.len() implies self.parent(#[trigger] t[i]) == Some(t[i - 1]) by {
                assert(t[i] == s[i]);
                assert(self.parent(s[i]) == Some(s[i - 1]));
            }
            self.lemma_path_rank(t);
        }
    }

    /// A child of a descendant is a descendant.
    pub proof fn lemma_contains_child(self, a: NodeId, x: NodeId, y: NodeId)
        requires
            self.contains(a, x),
            self.valid(y),
            self.parent(y) == Some(x),
        ensures
            self.contains(a, y),
    {
        let s = choose|s: Seq<NodeId>| #[trigger] self.is_path(s) && s[0] == a && s.last() == x;
        self.lemma_path_push(s, y);
        let t = s.push(y);
        assert(self.is_path(t) && t[0] == a && t.last() == y);
    }


    /// A parent contains whatever its child contains.
    pub proof fn lemma_contains_prepend(self, q: NodeId, y: NodeId, x: NodeId)
        requires
            self.contains(y, x),
            self.valid(q),
            self.parent(y) == Some(q),
        ensures
            self.contains(q, x),
    {
        let s = choose|s: Seq<NodeId>| #[trigger] self.is_path(s) && s[0] == y && s.last() == x;
        let t = seq![q] + s;
        assert forall|i: int| 0 <= i < t.len() implies self.valid(#[trigger] t[i]) by {
            if i > 0 {
                assert(t[i] == s[i - 1]);
            }
        }
        assert forall|i: int| 1 <= i < t.len() implies self.parent(#[trigger] t[i]) == Some(t[i - 1]) by {
            assert(t[i] == s[i - 1]);
            if i > 1 {
                assert(t[i - 1] == s[i - 2]);
                assert(self.parent(s[i - 1]) == Some(s[i - 2]));
            }
        }
        assert(self.is_path(t) && t[0] == q && t.last() == x);
    }

    /// A proper descendant has a parent, which is itself a descendant.
    pub proof fn lemma_contains_parent(self, a: NodeId, y: NodeId)
        requires
            self.contains(a, y),
            a != y,
        ensures
            self.parent(y) is Some,
            self.contains(a, self.parent(y)->0),
    {
        let s = choose|s: Seq<NodeId>| #[trigger] self.is_path(s) && s[0] == a && s.last() == y;
        assert(s.len() >= 2);
        assert(self.parent(s[s.len() - 1]) == Some(s[s.len() - 2]));
        let t = s.drop_last();
        assert forall|i: int| 0 <= i < t.len() implies self.valid(#[trigger] t[i]) by {
            assert(t[i] == s[i]);
        }
        assert forall|i: int| 1 <= i < t.len() implies self.parent(#[trigger] t[i]) == Some(t[i - 1]) by {
            assert(t[i] == s[i]);
            assert(self.parent(s[i]) == Some(s[i - 1]));
        }
        assert(self.is_path(t) && t[0] == a && t.last() == s[s.len() - 2]);
    }


    /// Ranks lifted around the subtree of `c` still respect every edge that
    /// does not enter that subtree from outside.
    proof fn lemma_lifted_edge(self, c: NodeId, x: NodeId, y: NodeId)
        requires
            self.wf(),
            self.valid(c),
            self.valid(x),
            self.valid(y),
            y != c,
            self.parent(y) == Some(x),
        ensures
            self.lifted_rank(c)[y as int] < self.lifted_rank(c)[x as int],
    {
        assert(self.nodes[x as int].children.contains(y));
        let i = choose|i: int| 0 <= i < self.nodes[x as int].children.len() && self.nodes[x as int].children[i] == y;
        assert(self.nodes[x as int].children[i] == y);
        assert(self.rank[y as int] < self.rank[x as int]);
        if self.contains(c, x) {
            self.lemma_contains_child(c, x, y);
        } else if self.contains(c, y) {
            self.lemma_contains_parent(c, y);
        }
    }

    /// Moving `c` under `p` keeps the document well formed with lifted ranks.
    pub proof fn lemma_append(self, p: NodeId, c: NodeId)
        requires
            self.wf(),
            self.valid(p),
            self.valid(c),
            self.is_elem(p),
            !self.contains(c, p),
        ensures
            (DocView { nodes: self.append(p, c), rank: self.lifted_rank(c) }).wf(),
    {
        self.lemma_detach(c);
        self.lemma_contains_self(c);
        let d = DocView { nodes: self.detach(c), rank: self.rank };
        let n2 = DocView { nodes: self.append(p, c), rank: self.lifted_rank(c) };
        assert(p != c);
        assert(n2.nodes.len() == self.nodes.len());
        assert forall|x: int, i: int|
            0 <= x < n2.nodes.len() && 0 <= i < n2.nodes[x].children.len() implies {
                let y = #[trigger] n2.nodes[x].children[i];
                &&& y < n2.nodes.len()
                &&& n2.rank[y as int] < n2.rank[x]
                &&& n2.nodes[y as int].parent == Some(x as NodeId)
            } by {
            let y = n2.nodes[x].children[i];
            if x == p && i == d.nodes[x].children.len() {
                assert(y == c);
            } else {
                assert(y == d.nodes[x].children[i]);
                assert(y < d.nodes.len() && d.nodes[y as int].parent == Some(x as NodeId));
                if y == c {
                    assert(d.nodes[x].children.contains(c));
                }
                assert(self.parent(y) == Some(x as NodeId));
                self.lemma_lifted_edge(c, x as NodeId, y);
            }
        }
        assert forall|x: int|
            0 <= x < n2.nodes.len() && (#[trigger] n2.nodes[x].parent) is Some implies {
                let q = n2.nodes[x].parent->0;
                &&& q < n2.nodes.len()
                &&& n2.nodes[q as int].children.contains(x as NodeId)
            } by {
            let q = n2.nodes[x].parent->0;
            if x == c {
                assert(n2.nodes[p as int].children.last() == c);
            } else {
                assert(d.nodes[x].parent == Some(q));
                assert(d.nodes[q as int].children.contains(x as NodeId));
                let j = choose|j: int| 0 <= j < d.nodes[q as int].children.len() && d.nodes[q as int].children[j] == x as NodeId;
                assert(n2.nodes[q as int].children[j] == x as NodeId);
            }
        }
        assert forall|x: int| 0 <= x < n2.nodes.len() implies (#[trigger] n2.nodes[x].children).no_duplicates() by {
            if x == p {
                assert(d.nodes[x].children.no_duplicates());
                assert(!d.nodes[x].children.contains(c));
            } else {
                assert(n2.nodes[x].children == d.nodes[x].children);
            }
        }
        assert forall|x: int|
            0 <= x < n2.nodes.len() && (#[trigger] n2.nodes[x].data) is Text implies n2.nodes[x].children.len() == 0 by {
            assert(n2.nodes[x].data == d.nodes[x].data);
            assert(x != p);
        }
    }


    /// `new` taking the place of `existing` under `p` keeps the document well
    /// formed with lifted ranks.
    pub proof fn lemma_replace(self, p: NodeId, new: NodeId, existing: NodeId)
        requires
            self.wf(),
            self.valid(p),
            self.valid(new),
            self.valid(existing),
            self.children(p).contains(existing),
            !self.contains(new, p),
            new != existing,
        ensures
            (DocView { nodes: self.replace(p, new, existing), rank: self.lifted_rank(new) }).wf(),
            self.detach(new)[p as int].children.contains(existing),
    {
        self.lemma_detach(new);
        self.lemma_contains_self(new);
        let d = DocView { nodes: self.detach(new), rank: self.rank };
        let n2 = DocView { nodes: self.replace(p, new, existing), rank: self.lifted_rank(new) };
        assert(p != new);
        let j0 = choose|j: int| 0 <= j < self.children(p).len() && self.children(p)[j] == existing;
        assert(self.nodes[p as int].children[j0] == existing);
        assert(self.parent(existing) == Some(p));
        assert(p != existing);
        assert(d.nodes[existing as int].parent == Some(p));
        assert(d.nodes[p as int].children.contains(existing));
        let l = d.nodes[p as int].children;
        let k = l.index_of(existing);
        assert(0 <= k < l.len() && l[k] == existing);
        let l2 = l.update(k, new);
        assert(n2.nodes[p as int].children == l2);
        assert(!l.contains(new));
        assert(n2.nodes.len() == self.nodes.len());
        assert forall|x: int, i: int|
            0 <= x < n2.nodes.len() && 0 <= i < n2.nodes[x].children.len() implies {
                let y = #[trigger] n2.nodes[x].children[i];
                &&& y < n2.nodes.len()
                &&& n2.rank[y as int] < n2.rank[x]
                &&& n2.nodes[y as int].parent == Some(x as NodeId)
            } by {
            let y = n2.nodes[x].children[i];
            if x == p && i == k {
                assert(y == new);
            } else {
                assert(y == d.nodes[x].children[i]);
                assert(y < d.nodes.len() && d.nodes[y as int].parent == Some(x as NodeId));
                if y == new {
                    assert(d.nodes[x].children.contains(new));
                }
                if y == existing {
                    assert(x == p);
                    assert(l[i] == l[k]);
                }
                assert(self.parent(y) == Some(x as NodeId));
                self.lemma_lifted_edge(new, x as NodeId, y);
            }
        }
        assert forall|x: int|
            0 <= x < n2.nodes.len() && (#[trigger] n2.nodes[x].parent) is Some implies {
                let q = n2.nodes[x].parent->0;
                &&& q < n2.nodes.len()
                &&& n2.nodes[q as int].children.contains(x as NodeId)
            } by {
            let q = n2.nodes[x].parent->0;
            if x == new {
                assert(l2[k] == new);
            } else {
                assert(x != existing);
                assert(d.nodes[x].parent == Some(q));
                assert(d.nodes[q as int].children.contains(x as NodeId));
                let j = choose|j: int| 0 <= j < d.nodes[q as int].children.len() && d.nodes[q as int].children[j] == x as NodeId;
                if q == p {
                    assert(j != k);
                    assert(l2[j] == x as NodeId);
                } else {
                    assert(n2.nodes[q as int].children[j] == x as NodeId);
                }
            }
        }
        assert forall|x: int| 0 <= x < n2.nodes.len() implies (#[trigger] n2.nodes[x].children).no_duplicates() by {
            if x == p {
                assert(l.no_duplicates());
                assert forall|i: int, j: int| 0 <= i < l2.len() && 0 <= j < l2.len() && i != j implies l2[i] != l2[j] by {
                    if i == k {
                        assert(l[j] != new);
                    } else if j == k {
                        assert(l[i] != new);
                    }
                }
            } else {
                assert(n2.nodes[x].children == d.nodes[x].children);
            }
        }
        assert forall|x: int|
            0 <= x < n2.nodes.len() && (#[trigger] n2.nodes[x].data) is Text implies n2.nodes[x].children.len() == 0 by {
            assert(n2.nodes[x].data == d.nodes[x].data);
            if x == p {
                assert(self.nodes[p as int].children.len() > 0);
            }
        }
    }

    /// Detaching a node keeps the document well formed; afterwards no child
    /// list holds it, and every other node keeps its parent.
    pub proof fn lemma_detach(self, c: NodeId)
        requires
            self.wf(),
            self.valid(c),
        ensures
            (DocView { nodes: self.detach(c), rank: self.rank }).wf(),
            self.detach(c).len() == self.nodes.len(),
            forall|p: int| 0 <= p < self.nodes.len() ==> !(#[trigger] self.detach(c)[p]).children.contains(c),
            forall|x: int| 0 <= x < self.nodes.len() && x != c ==> (#[trigger] self.detach(c)[x]).parent == self.nodes[x].parent,
            self.detach(c)[c as int].parent is None,
            forall|x: int| 0 <= x < self.nodes.len() ==> (#[trigger] self.detach(c)[x]).data == self.nodes[x].data,
            forall|x: int| 0 <= x < self.nodes.len() ==> (#[trigger] self.detach(c)[x]).children.to_set() <= self.nodes[x].children.to_set(),
            forall|x: int| 0 <= x < self.nodes.len() && self.parent(c) != Some(x as NodeId) ==> (#[trigger] self.detach(c)[x]).children == self.nodes[x].children,
    {
        let d = DocView { nodes: self.detach(c), rank: self.rank };
        match self.parent(c) {
            None => {
                assert forall|p: int| 0 <= p < self.nodes.len() implies !(#[trigger] self.detach(c)[p]).children.contains(c) by {
                    if self.nodes[p].children.contains(c) {
                        let i = choose|i: int| 0 <= i < self.nodes[p].children.len() && self.nodes[p].children[i] == c;
                        assert(self.nodes[p].children[i] == c);
                    }
                }
                assert forall|x: int| 0 <= x < self.nodes.len() implies (#[trigger] self.detach(c)[x]).children.to_set() <= self.nodes[x].children.to_set() by {}
            },
            Some(q) => {
                let qs = self.nodes[q as int].children;
                let k = qs.index_of(c);
                assert(qs.contains(c));
                let qs2 = qs.remove(k);
                assert(0 <= k < qs.len() && qs[k] == c);
                assert forall|i: int| 0 <= i < qs2.len() implies #[trigger] qs2[i] != c && qs.contains(qs2[i]) by {
                    if i < k {
                        assert(qs2[i] == qs[i]);
                    } else {
                        assert(qs2[i] == qs[i + 1]);
                    }
                }
                assert(qs2.no_duplicates()) by {
                    assert forall|i: int, j: int| 0 <= i < qs2.len() && 0 <= j < qs2.len() && i != j implies qs2[i] != qs2[j] by {
                        let ii = if i < k { i } else { i + 1 };
                        let jj = if j < k { j } else { j + 1 };
                        assert(qs2[i] == qs[ii]);
                        assert(qs2[j] == qs[jj]);
                    }
                }
                assert forall|p: int| 0 <= p < self.nodes.len() implies !(#[trigger] self.detach(c)[p]).children.contains(c) by {
                    if p != q {
                        assert(self.detach(c)[p].children == self.nodes[p].children);
                        if self.nodes[p].children.contains(c) {
                            let i = choose|i: int| 0 <= i < self.nodes[p].children.len() && self.nodes[p].children[i] == c;
                            assert(self.nodes[p].children[i] == c);
                        }
                    } else {
                        assert(self.detach(c)[p].children == qs2);
                        if qs2.contains(c) {
                            let i = choose|i: int| 0 <= i < qs2.len() && qs2[i] == c;
                            assert(qs2[i] != c);
                        }
                    }
                }
                assert forall|x: int| 0 <= x < self.nodes.len() implies (#[trigger] self.detach(c)[x]).children.to_set() <= self.nodes[x].children.to_set() by {
                    if x == q {
                        assert forall|y: NodeId| qs2.to_set().contains(y) implies qs.to_set().contains(y) by {
                            let i = choose|i: int| 0 <= i < qs2.len() && qs2[i] == y;
                            assert(qs.contains(qs2[i]));
                        }
                    }
                }
                assert forall|p: int, i: int|
                    0 <= p < d.nodes.len() && 0 <= i < d.nodes[p].children.len() implies {
                        let y = #[trigger] d.nodes[p].children[i];
                        &&& y < d.nodes.len()
                        &&& d.rank[y as int] < d.rank[p]
                        &&& d.nodes[y as int].parent == Some(p as NodeId)
                    } by {
                    let y = d.nodes[p].children[i];
                    if p == q {
                        assert(qs.contains(y));
                        let j = choose|j: int| 0 <= j < qs.len() && qs[j] == y;
                        assert(self.nodes[p].children[j] == y);
                        assert(y != c);
                    } else {
                        assert(self.nodes[p].children[i] == y);
                        if y == c {
                            assert(self.nodes[c as int].parent == Some(p as NodeId));
                        }
                    }
                }
                assert forall|x: int|
                    0 <= x < d.nodes.len() && (#[trigger] d.nodes[x].parent) is Some implies {
                        let p = d.nodes[x].parent->0;
                        &&& p < d.nodes.len()
                        &&& d.nodes[p as int].children.contains(x as NodeId)
                    } by {
                    let p = d.nodes[x].parent->0;
                    assert(x != c);
                    assert(self.nodes[x].parent == Some(p));
                    assert(self.nodes[p as int].children.contains(x as NodeId));
                    if p == q {
                        let j = choose|j: int| 0 <= j < qs.len() && qs[j] == x as NodeId;
                        assert(qs[j] != qs[k]);
                        if j < k {
                            assert(qs2[j] == qs[j]);
                        } else {
                            assert(qs2[j - 1] == qs[j]);
                        }
                    }
                }
                assert forall|p: int| 0 <= p < d.nodes.len() implies (#[trigger] d.nodes[p].children).no_duplicates() by {
                    if p != q {
                        assert(d.nodes[p].children == self.nodes[p].children);
                    }
                }
                assert forall|p: int|
                    0 <= p < d.nodes.len() && (#[trigger] d.nodes[p].data) is Text implies d.nodes[p].children.len() == 0 by {
                    if p == q {
                        assert(self.nodes[p].children.len() == 0);
                    }
                }
            },
        }
    }
}

impl VirtDocument {
    pub open spec fn wf(&self) -> bool {
        self@.wf()
    }

    /// Creates an empty document.
    pub fn new() -> (doc: VirtDocument)
        ensures
            doc.wf(),
            doc@.nodes.len() == 0,
    {
        let doc = VirtDocument { nodes: Vec::new(), rank: Ghost(Seq::empty()) };
        assert(doc@.nodes =~= Seq::<NodeView>::empty());
        doc
    }

    /// The number of nodes the document holds.
    pub fn len(&self) -> (n: usize)
        ensures
            n == self@.nodes.len(),
    {
        self.nodes.len()
    }

    proof fn lemma_view_index(&self, n: int)
        requires
            0 <= n < self.nodes@.len(),
        ensures
            self@.nodes[n] == self.nodes@[n]@,
            self@.nodes.len() == self.nodes@.len(),
    {
    }

    fn push_node(&mut self, data: VirtData) -> (id: NodeId)
        requires
            old(self).wf(),
        ensures
            final(self).wf(),
            id == old(self)@.nodes.len(),
            final(self)@.nodes == old(self)@.with_new_node(data@),
    {
        let id = self.nodes.len();
        let ghost old_view = self@;
        self.nodes.push(VirtNode { parent: None, children: Vec::new(), data });
        proof {
            self.rank@ = self.rank@.push(0);
            assert(self.nodes@.len() == self.nodes.len());
            assert(self@.nodes =~= old_view.with_new_node(data@));
            assert forall|p: int, i: int|
                0 <= p < self@.nodes.len() && 0 <= i < self@.nodes[p].children.len() implies {
                    let c = #[trigger] self@.nodes[p].children[i];
                    &&& c < self@.nodes.len()
                    &&& self@.rank[c as int] < self@.rank[p]
                    &&& self@.nodes[c as int].parent == Some(p as NodeId)
                } by {
                assert(p < id);
                assert(old_view.nodes[p].children[i] < id);
            }
            assert forall|c: int|
                0 <= c < self@.nodes.len() && (#[trigger] self@.nodes[c].parent) is Some implies {
                    let p = self@.nodes[c].parent->0;
                    &&& p < self@.nodes.len()
                    &&& self@.nodes[p as int].children.contains(c as NodeId)
                } by {
                assert(c < id);
            }
        }
        id
    }
}


pub open spec fn opt_string_view(o: Option<String>) -> Option<Seq<char>> {
    match o {
        Some(s) => Some(s@),
        None => None,
    }
}

pub proof fn lemma_first_attr_unique(attrs: Seq<(Seq<char>, Seq<char>)>, name: Seq<char>, i: int, j: int)
    requires
        is_first_attr(attrs, name, i),
        is_first_attr(attrs, name, j),
    ensures
        i == j,
{
    if i < j {
        assert(attrs[i].0 != name);
    } else if j < i {
        assert(attrs[j].0 != name);
    }
}


pub open spec fn max_rank(r: Seq<nat>) -> nat
    decreases r.len(),
{
    if r.len() == 0 {
        0
    } else {
        let m = max_rank(r.drop_last());
        if r.last() > m { r.last() } else { m }
    }
}

proof fn lemma_max_rank(r: Seq<nat>, i: int)
    requires
        0 <= i < r.len(),
    ensures
        r[i] <= max_rank(r),
    decreases r.len(),
{
    if i < r.len() - 1 {
        lemma_max_rank(r.drop_last(), i);
        assert(r.drop_last()[i] == r[i]);
    }
}

/// Finds the position of `x` in `v`.
fn position(v: &Vec<NodeId>, x: NodeId) -> (r: Option<usize>)
    ensures
        match r {
            Some(i) => i < v@.len() && v@[i as int] == x,
            None => !v@.contains(x),
        },
{
    let mut i: usize = 0;
    while i < v.len()
        invariant
            i <= v@.len(),
            forall|j: int| 0 <= j < i ==> v@[j] != x,
        decreases v@.len() - i,
    {
        if v[i] == x {
            return Some(i);
        }
        i = i + 1;
    }
    None
}

/// Finds the position of the first attribute called `name`.
fn find_attr(attrs: &Vec<(String, String)>, name: &String) -> (r: Option<usize>)
    ensures
        match r {
            Some(i) => is_first_attr(attrs_view(attrs@), name@, i as int),
            None => !has_attr(attrs_view(attrs@), name@),
        },
{
    let ghost av = attrs_view(attrs@);
    let mut i: usize = 0;
    while i < attrs.len()
        invariant
            i <= attrs@.len(),
            av == attrs_view(attrs@),
            av.len() == attrs@.len(),
            forall|j: int| 0 <= j < i ==> av[j].0 != name@,
        decreases attrs@.len() - i,
    {
        if attrs[i].0 == *name {
            assert(av[i as int].0 == name@);
            return Some(i);
        }
        i = i + 1;
    }
    assert forall|k: int| !is_first_attr(av, name@, k) by {
        if 0 <= k < av.len() {
            assert(av[k].0 != name@);
        }
    }
    None
}

impl VirtDocument {
    /// Create a new text node within the document.
    pub fn create_text_node(&mut self, contents: &str) -> (id: NodeId)
        requires
            old(self).wf(),
        ensures
            final(self).wf(),
            id == old(self)@.nodes.len(),
            final(self)@.nodes == old(self)@.with_new_node(DataView::Text(contents@)),
    {
        let data = VirtData::Text(contents.to_string());
        self.push_node(data)
    }

    /// Create a new element within the document.
    pub fn create_element(&mut self, ty: &str) -> (id: NodeId)
        requires
            old(self).wf(),
        ensures
            final(self).wf(),
            id == old(self)@.nodes.len(),
            final(self)@.nodes == old(self)@.with_new_node(DataView::Elem { tag: ty@, attrs: Seq::empty() }),
    {
        create_element(self, ty)
    }

    /// Get an attribute from this DOM node. Text nodes have no attributes.
    pub fn get_attribute(&self, n: NodeId, name: &str) -> (r: Option<String>)
        requires
            self@.valid(n),
        ensures
            opt_string_view(r) == self@.attribute(n, name@),
    {
        proof { self.lemma_view_index(n as int); }
        match &self.nodes[n].data {
            VirtData::Text(_) => None,
            VirtData::Elem { attrs, .. } => {
                let name_s = name.to_string();
                match find_attr(attrs, &name_s) {
                    Some(i) => {
                        proof {
                            let av = attrs_view(attrs@);
                            let k = choose|k: int| is_first_attr(av, name@, k);
                            lemma_first_attr_unique(av, name@, i as int, k);
                        }
                        Some(attrs[i].1.clone())
                    },
                    None => None,
                }
            },
        }
    }

    /// Set an attribute on this DOM node: the first attribute with this name
    /// takes the new value, or the attribute is added after all others.
    pub fn set_attribute(&mut self, n: NodeId, name: &str, value: &str)
        requires
            old(self).wf(),
            old(self)@.valid(n),
            old(self)@.is_elem(n),
        ensures
            final(self).wf(),
            final(self)@.rank == old(self)@.rank,
            final(self)@.nodes == old(self)@.set_attr(n, name@, value@),
    {
        proof { self.lemma_view_index(n as int); }
        let ghost old_view = self@;
        let name_s = name.to_string();
        let value_s = value.to_string();
        match &mut self.nodes[n].data {
            VirtData::Text(_) => {},
            VirtData::Elem { attrs, .. } => {
                let ghost av = attrs_view(attrs@);
                match find_attr(attrs, &name_s) {
                    Some(i) => {
                        proof {
                            let k = choose|k: int| is_first_attr(av, name@, k);
                            lemma_first_attr_unique(av, name@, i as int, k);
                        }
                        attrs.set(i, (name_s, value_s));
                        assert(attrs_view(attrs@) =~= update_attr(av, name@, value@));
                    },
                    None => {
                        attrs.push((name_s, value_s));
                        assert(attrs_view(attrs@) =~= update_attr(av, name@, value@));
                    },
                }
            },
        }
        proof {
            assert(self@.nodes =~= old_view.set_attr(n, name@, value@));
        }
    }

    proof fn lemma_node_view(&self, n: int)
        requires
            0 <= n < self.nodes@.len(),
        ensures
            self@.nodes[n].parent == self.nodes@[n].parent,
            self@.nodes[n].children == self.nodes@[n].children@,
            self@.nodes.len() == self.nodes@.len(),
    {
    }


    /// The content of this node.
    pub fn data(&self, n: NodeId) -> (r: &VirtData)
        requires
            self@.valid(n),
        ensures
            r@ == self@.node(n).data,
    {
        proof { self.lemma_view_index(n as int); }
        &self.nodes[n].data
    }

    /// Returns the first child of this node.
    pub fn first_child(&self, n: NodeId) -> (r: Option<NodeId>)
        requires
            self@.valid(n),
        ensures
            r == self@.first_child(n),
    {
        proof { self.lemma_node_view(n as int); }
        if self.nodes[n].children.len() > 0 {
            Some(self.nodes[n].children[0])
        } else {
            None
        }
    }

    /// Returns the parent of this node, if it is attached.
    pub fn parent(&self, n: NodeId) -> (r: Option<NodeId>)
        requires
            self@.valid(n),
        ensures
            r == self@.parent(n),
    {
        proof { self.lemma_node_view(n as int); }
        self.nodes[n].parent
    }

    /// The children of this node, in order.
    pub fn children(&self, n: NodeId) -> (r: &Vec<NodeId>)
        requires
            self@.valid(n),
        ensures
            r@ == self@.children(n),
    {
        proof { self.lemma_node_view(n as int); }
        &self.nodes[n].children
    }

    /// Whether this node is an element (as opposed to a text node).
    pub fn is_element(&self, n: NodeId) -> (r: bool)
        requires
            self@.valid(n),
        ensures
            r == self@.is_elem(n),
    {
        proof { self.lemma_view_index(n as int); }
        match &self.nodes[n].data {
            VirtData::Elem { .. } => true,
            VirtData::Text(_) => false,
        }
    }

    /// Returns the next child of this node's parent after this node itself.
    pub fn next_sibling(&self, n: NodeId) -> (r: Option<NodeId>)
        requires
            self.wf(),
            self@.valid(n),
        ensures
            r == self@.next_sibling(n),
    {
        proof { self.lemma_node_view(n as int); }
        match self.nodes[n].parent {
            None => None,
            Some(p) => {
                proof {
                    self.lemma_node_view(p as int);
                    assert(self@.children(p).contains(n));
                }
                let siblings = &self.nodes[p].children;
                match position(siblings, n) {
                    None => None,
                    Some(i) => {
                        proof { lemma_index_of_unique(self@.children(p), n, i as int); }
                        if i < siblings.len() - 1 {
                            Some(siblings[i + 1])
                        } else {
                            None
                        }
                    },
                }
            },
        }
    }

    /// Whether `x` is `a` itself or one of its descendants.
    pub fn contains(&self, a: NodeId, x: NodeId) -> (r: bool)
        requires
            self.wf(),
            self@.valid(a),
            self@.valid(x),
        ensures
            r == self@.contains(a, x),
    {
        let ghost v = self@;
        let ghost bound = max_rank(v.rank);
        let mut cur = x;
        proof { v.lemma_contains_self(x); }
        loop
            invariant
                self@ == v,
                v.wf(),
                v.valid(cur),
                v.contains(cur, x),
                v.contains(a, x) ==> v.contains(a, cur),
                bound == max_rank(v.rank),
            decreases bound - v.rank[cur as int],
        {
            proof { self.lemma_node_view(cur as int); }
            if cur == a {
                return true;
            }
            match self.nodes[cur].parent {
                None => {
                    proof {
                        if v.contains(a, x) {
                            v.lemma_contains_parent(a, cur);
                        }
                    }
                    return false;
                },
                Some(q) => {
                    proof {
                        assert(v.nodes[q as int].children.contains(cur));
                        let j = choose|j: int| 0 <= j < v.nodes[q as int].children.len() && v.nodes[q as int].children[j] == cur;
                        assert(v.nodes[q as int].children[j] == cur);
                        lemma_max_rank(v.rank, q as int);
                        v.lemma_contains_prepend(q, cur, x);
                        if v.contains(a, x) {
                            v.lemma_contains_parent(a, cur);
                        }
                    }
                    cur = q;
                },
            }
        }
    }

    fn detach_node(&mut self, c: NodeId)
        requires
            old(self).wf(),
            old(self)@.valid(c),
        ensures
            final(self)@.nodes == old(self)@.detach(c),
            final(self)@.rank == old(self)@.rank,
            final(self).wf(),
    {
        let ghost v = self@;
        proof {
            self.lemma_node_view(c as int);
            v.lemma_detach(c);
        }
        match self.nodes[c].parent {
            None => {},
            Some(q) => {
                proof {
                    self.lemma_node_view(q as int);
                    assert(v.children(q).contains(c));
                }
                match position(&self.nodes[q].children, c) {
                    None => {},
                    Some(i) => {
                        proof { lemma_index_of_unique(v.children(q), c, i as int); }
                        self.nodes[q].children.remove(i);
                        self.nodes[c].parent = None;
                    },
                }
            },
        }
        proof {
            assert(self@.nodes =~= v.detach(c)) by {
                assert forall|x: int| 0 <= x < self@.nodes.len() implies self@.nodes[x] == v.detach(c)[x] by {
                    self.lemma_view_index(x);
                    assert(self@.nodes[x].children =~= v.detach(c)[x].children);
                }
            }
        }
    }

    /// Adds a new child to the end of this node's children. As on the web, a
    /// child that already has a parent is first taken out of it.
    pub fn append_child(&mut self, p: NodeId, c: NodeId)
        requires
            old(self).wf(),
            old(self)@.valid(p),
            old(self)@.valid(c),
            old(self)@.is_elem(p),
            !old(self)@.contains(c, p),
        ensures
            final(self).wf(),
            final(self)@.nodes == old(self)@.append(p, c),
    {
        let ghost v = self@;
        proof { v.lemma_append(p, c); v.lemma_detach(c); v.lemma_contains_self(c); }
        self.detach_node(c);
        self.nodes[p].children.push(c);
        self.nodes[c].parent = Some(p);
        proof {
            self.rank@ = v.lifted_rank(c);
            assert(self@.nodes =~= v.append(p, c)) by {
                assert forall|x: int| 0 <= x < self@.nodes.len() implies self@.nodes[x] == v.append(p, c)[x] by {
                    self.lemma_view_index(x);
                    assert(self@.nodes[x].children =~= v.append(p, c)[x].children);
                }
            }
        }
    }

    /// Replaces the provided child of this node with a new one. As on the
    /// web, the new child is first taken out of its current parent.
    pub fn replace_child(&mut self, p: NodeId, new_child: NodeId, existing: NodeId)
        requires
            old(self).wf(),
            old(self)@.valid(p),
            old(self)@.valid(new_child),
            old(self)@.valid(existing),
            old(self)@.children(p).contains(existing),
            !old(self)@.contains(new_child, p),
        ensures
            final(self).wf(),
            final(self)@.nodes == old(self)@.replace(p, new_child, existing),
    {
        if new_child == existing {
            return;
        }
        let ghost v = self@;
        proof { v.lemma_replace(p, new_child, existing); v.lemma_detach(new_child); }
        self.detach_node(new_child);
        proof { self.lemma_node_view(p as int); }
        match position(&self.nodes[p].children, existing) {
            None => {},
            Some(k) => {
                proof {
                    lemma_index_of_unique(self@.children(p), existing, k as int);
                }
                self.nodes[p].children.set(k, new_child);
                self.nodes[new_child].parent = Some(p);
                self.nodes[existing].parent = None;
            },
        }
        proof {
            self.rank@ = v.lifted_rank(new_child);
            assert(self@.nodes =~= v.replace(p, new_child, existing)) by {
                assert forall|x: int| 0 <= x < self@.nodes.len() implies self@.nodes[x] == v.replace(p, new_child, existing)[x] by {
                    self.lemma_view_index(x);
                    assert(self@.nodes[x].children =~= v.replace(p, new_child, existing)[x].children);
                }
            }
        }
    }

    /// Removes the provided child from this node, returning it; returns
    /// `None` when it is not a child of this node.
    pub fn remove_child(&mut self, p: NodeId, to_remove: NodeId) -> (r: Option<NodeId>)
        requires
            old(self).wf(),
            old(self)@.valid(p),
            old(self)@.valid(to_remove),
        ensures
            final(self).wf(),
            old(self)@.parent(to_remove) == Some(p) ==> r == Some(to_remove) && final(self)@.nodes == old(self)@.detach(to_remove),
            old(self)@.parent(to_remove) != Some(p) ==> r is None && final(self)@ == old(self)@,
    {
        proof { self.lemma_node_view(to_remove as int); }
        if self.nodes[to_remove].parent == Some(p) {
            self.detach_node(to_remove);
            Some(to_remove)
        } else {
            None
        }
    }

    /// Ensure the provided attribute has been removed from this DOM node:
    /// every attribute with this name is dropped.
    pub fn remove_attribute(&mut self, n: NodeId, name: &str)
        requires
            old(self).wf(),
            old(self)@.valid(n),
            old(self)@.is_elem(n),
        ensures
            final(self).wf(),
            final(self)@.rank == old(self)@.rank,
            final(self)@.nodes == old(self)@.with_attrs(n, drop_attr(old(self)@.node(n).data.attrs(), name@)),
    {
        proof { self.lemma_view_index(n as int); }
        let ghost old_view = self@;
        let name_s = name.to_string();
        match &mut self.nodes[n].data {
            VirtData::Text(_) => {},
            VirtData::Elem { attrs, .. } => {
                let ghost av = attrs_view(attrs@);
                let ghost pred = |a: (Seq<char>, Seq<char>)| a.0 != name@;
                let mut kept: Vec<(String, String)> = Vec::new();
                let mut i: usize = 0;
                assert(av.take(0) =~= Seq::<(Seq<char>, Seq<char>)>::empty());
                assert(attrs_view(kept@) =~= av.take(0).filter(pred)) by {
                    reveal(Seq::filter);
                }
                while i < attrs.len()
                    invariant
                        i <= attrs@.len(),
                        av == attrs_view(attrs@),
                        av.len() == attrs@.len(),
                        attrs_view(kept@) == av.take(i as int).filter(pred),
                        name_s@ == name@,
                        pred == (|a: (Seq<char>, Seq<char>)| a.0 != name@),
                    decreases attrs@.len() - i,
                {
                    let ghost before = kept@;
                    assert(av.take(i as int + 1) =~= av.take(i as int).push(av[i as int]));
                    proof { av.take(i as int).lemma_filter_push(av[i as int], pred); }
                    assert(av[i as int] == (attrs@[i as int].0@, attrs@[i as int].1@));
                    if !(attrs[i].0 == name_s) {
                        let a = (attrs[i].0.clone(), attrs[i].1.clone());
                        kept.push(a);
                        assert(attrs_view(kept@) =~= attrs_view(before).push(av[i as int]));
                    } else {
                        assert(!pred(av[i as int]));
                    }
                    i = i + 1;
                }
                assert(av.take(av.len() as int) =~= av);
                *attrs = kept;
            },
        }
        proof {
            assert(self@.nodes =~= old_view.with_attrs(n, drop_attr(old_view.node(n).data.attrs(), name@)));
        }
    }
}


/// After an attribute is set, reading it gives the value that was set, and
/// every other attribute reads as before.
pub proof fn law_get_after_set(attrs: Seq<(Seq<char>, Seq<char>)>, name: Seq<char>, value: Seq<char>, other: Seq<char>)
    ensures
        lookup_attr(update_attr(attrs, name, value), name) == Some(value),
        other != name ==> lookup_attr(update_attr(attrs, name, value), other) == lookup_attr(attrs, other),
{
    let u = update_attr(attrs, name, value);
    if has_attr(attrs, name) {
        let i = choose|i: int| is_first_attr(attrs, name, i);
        assert(is_first_attr(u, name, i));
        let k = choose|k: int| is_first_attr(u, name, k);
        lemma_first_attr_unique(u, name, i, k);
        if other != name {
            if has_attr(attrs, other) {
                let j = choose|j: int| is_first_attr(attrs, other, j);
                assert(is_first_attr(u, other, j));
                let k2 = choose|k2: int| is_first_attr(u, other, k2);
                lemma_first_attr_unique(u, other, j, k2);
            } else {
                assert forall|j: int| !is_first_attr(u, other, j) by {
                    if is_first_attr(u, other, j) {
                        assert(j != i);
                        assert forall|m: int| 0 <= m < j implies attrs[m].0 != other by {
                            if m != i {
                                assert(u[m] == attrs[m]);
                            }
                        }
                        assert(u[j] == attrs[j]);
                        assert(is_first_attr(attrs, other, j));
                    }
                }
            }
        }
    } else {
        let i = attrs.len() as int;
        assert forall|j: int| 0 <= j < i implies u[j].0 != name by {
            if u[j].0 == name {
                assert(is_first_attr(attrs, name, j) || exists|m: int| 0 <= m < j && attrs[m].0 == name);
                if !is_first_attr(attrs, name, j) {
                    let m = choose|m: int| 0 <= m < j && attrs[m].0 == name;
                    lemma_first_occurrence(attrs, name, m);
                }
            }
        }
        assert(is_first_attr(u, name, i));
        let k = choose|k: int| is_first_attr(u, name, k);
        lemma_first_attr_unique(u, name, i, k);
        if other != name {
            if has_attr(attrs, other) {
                let j = choose|j: int| is_first_attr(attrs, other, j);
                assert(is_first_attr(u, other, j));
                let k2 = choose|k2: int| is_first_attr(u, other, k2);
                lemma_first_attr_unique(u, other, j, k2);
            } else {
                assert forall|j: int| !is_first_attr(u, other, j) by {
                    if is_first_attr(u, other, j) {
                        assert(j != i);
                        assert forall|m: int| 0 <= m < j implies attrs[m].0 != other by {
                            assert(u[m] == attrs[m]);
                        }
                        assert(u[j] == attrs[j]);
                        assert(is_first_attr(attrs, other, j));
                    }
                }
            }
        }
    }
}

/// Any attribute called `name` makes some attribute the first one so called.
proof fn lemma_first_occurrence(attrs: Seq<(Seq<char>, Seq<char>)>, name: Seq<char>, m: int)
    requires
        0 <= m < attrs.len(),
        attrs[m].0 == name,
    ensures
        has_attr(attrs, name),
    decreases m,
{
    if is_first_attr(attrs, name, m) {
    } else {
        let m2 = choose|m2: int| 0 <= m2 < m && attrs[m2].0 == name;
        lemma_first_occurrence(attrs, name, m2);
    }
}

/// Setting an attribute twice leaves the second value, as if only the
/// second set had happened.
pub proof fn law_set_twice(attrs: Seq<(Seq<char>, Seq<char>)>, name: Seq<char>, v1: Seq<char>, v2: Seq<char>)
    ensures
        update_attr(update_attr(attrs, name, v1), name, v2) == update_attr(attrs, name, v2),
{
    let u = update_attr(attrs, name, v1);
    law_get_after_set(attrs, name, v1, name);
    let k = choose|k: int| is_first_attr(u, name, k);
    if has_attr(attrs, name) {
        let i = choose|i: int| is_first_attr(attrs, name, i);
        assert(is_first_attr(u, name, i));
        lemma_first_attr_unique(u, name, i, k);
        assert(update_attr(u, name, v2) =~= update_attr(attrs, name, v2));
    } else {
        let i = attrs.len() as int;
        assert forall|j: int| 0 <= j < i implies u[j].0 != name by {
            if u[j].0 == name {
                lemma_first_occurrence(attrs, name, j);
            }
        }
        assert(is_first_attr(u, name, i));
        lemma_first_attr_unique(u, name, i, k);
        assert(update_attr(u, name, v2) =~= update_attr(attrs, name, v2));
    }
}

/// After an attribute is removed it reads as absent, and every other
/// attribute reads as before.
pub proof fn law_get_after_remove(attrs: Seq<(Seq<char>, Seq<char>)>, name: Seq<char>, other: Seq<char>)
    ensures
        lookup_attr(drop_attr(attrs, name), name) is None,
        other != name ==> lookup_attr(drop_attr(attrs, name), other) == lookup_attr(attrs, other),
    decreases attrs.len(),
{
    let d = drop_attr(attrs, name);
    assert forall|j: int| !is_first_attr(d, name, j) by {
        if 0 <= j < d.len() {
            lemma_drop_attr_member(attrs, name, j);
        }
    }
    if other != name && attrs.len() > 0 {
        let rest = attrs.drop_last();
        law_get_after_remove(rest, name, other);
        let last = attrs.last();
        assert(attrs =~= rest.push(last));
        assert(drop_attr(attrs, name) == if last.0 != name {
            drop_attr(rest, name).push(last)
        } else {
            drop_attr(rest, name)
        }) by {
            reveal(Seq::filter);
        }
        lemma_lookup_push(rest, last, other);
        if last.0 != name {
            lemma_lookup_push(drop_attr(rest, name), last, other);
        }
    }
}

/// No attribute left after removing `name` is called `name`.
proof fn lemma_drop_attr_member(attrs: Seq<(Seq<char>, Seq<char>)>, name: Seq<char>, j: int)
    requires
        0 <= j < drop_attr(attrs, name).len(),
    ensures
        drop_attr(attrs, name)[j].0 != name,
    decreases attrs.len(),
{
    reveal(Seq::filter);
    if attrs.len() > 0 {
        let rest = attrs.drop_last();
        let last = attrs.last();
        if last.0 != name && j == drop_attr(attrs, name).len() - 1 {
        } else {
            lemma_drop_attr_member(rest, name, j);
        }
    }
}

/// Reading an attribute of a list with one more attribute at the end.
proof fn lemma_lookup_push(attrs: Seq<(Seq<char>, Seq<char>)>, a: (Seq<char>, Seq<char>), name: Seq<char>)
    ensures
        lookup_attr(attrs.push(a), name) == if has_attr(attrs, name) {
            lookup_attr(attrs, name)
        } else if a.0 == name {
            Some(a.1)
        } else {
            None::<Seq<char>>
        },
{
    let t = attrs.push(a);
    if has_attr(attrs, name) {
        let i = choose|i: int| is_first_attr(attrs, name, i);
        assert(is_first_attr(t, name, i));
        let k = choose|k: int| is_first_attr(t, name, k);
        lemma_first_attr_unique(t, name, i, k);
    } else {
        let i = attrs.len() as int;
        assert forall|j: int| 0 <= j < i implies t[j].0 != name by {
            if t[j].0 == name {
                lemma_first_occurrence(attrs, name, j);
            }
        }
        if a.0 == name {
            assert(is_first_attr(t, name, i));
            let k = choose|k: int| is_first_attr(t, name, k);
            lemma_first_attr_unique(t, name, i, k);
        } else {
            assert forall|j: int| !is_first_attr(t, name, j) by {}
        }
    }
}


/// Appending moves a node: afterwards it is the last child of its new
/// parent, and no other node lists it as a child.
pub proof fn law_append_moves(v: DocView, p: NodeId, c: NodeId)
    requires
        v.wf(),
        v.valid(p),
        v.valid(c),
        v.is_elem(p),
        !v.contains(c, p),
    ensures
        ({
            let w = DocView { nodes: v.append(p, c), rank: v.lifted_rank(c) };
            &&& w.wf()
            &&& w.children(p).last() == c
            &&& w.parent(c) == Some(p)
            &&& forall|q: NodeId| w.valid(q) && q != p ==> !w.children(q).contains(c)
        }),
{
    v.lemma_append(p, c);
    v.lemma_detach(c);
    v.lemma_contains_self(c);
    let w = DocView { nodes: v.append(p, c), rank: v.lifted_rank(c) };
    assert forall|q: NodeId| w.valid(q) && q != p implies !w.children(q).contains(c) by {
        if q != c {
            assert(w.nodes[q as int] == v.detach(c)[q as int]);
        } else {
            assert(w.children(c) == v.detach(c)[c as int].children);
        }
        assert(!v.detach(c)[q as int].children.contains(c));
    }
}

/// Removing a detached node right after appending it restores the document.
pub proof fn law_remove_undoes_append(v: DocView, p: NodeId, c: NodeId)
    requires
        v.wf(),
        v.valid(p),
        v.valid(c),
        v.is_elem(p),
        !v.contains(c, p),
        v.parent(c) is None,
    ensures
        (DocView { nodes: v.append(p, c), rank: v.lifted_rank(c) }).detach(c) == v.nodes,
{
    v.lemma_append(p, c);
    v.lemma_contains_self(c);
    let w = DocView { nodes: v.append(p, c), rank: v.lifted_rank(c) };
    assert(v.detach(c) == v.nodes);
    let l = v.children(p);
    assert(!l.contains(c)) by {
        if l.contains(c) {
            let i = choose|i: int| 0 <= i < l.len() && l[i] == c;
            assert(v.nodes[p as int].children[i] == c);
        }
    }
    assert(w.children(p) == l.push(c));
    lemma_index_of_unique(w.children(p), c, l.len() as int);
    assert(w.children(p).remove(l.len() as int) =~= l);
    assert(w.detach(c) =~= v.nodes);
}

/// Create a new virtual element of the provided type.
pub fn create_element(doc: &mut VirtDocument, ty: &str) -> (id: NodeId)
    requires
        old(doc).wf(),
    ensures
        final(doc).wf(),
        id == old(doc)@.nodes.len(),
        final(doc)@.nodes == old(doc)@.with_new_node(DataView::Elem { tag: ty@, attrs: Seq::empty() }),
{
    let tag = ty.to_string();
    let attrs: Vec<(String, String)> = Vec::new();
    let data = VirtData::Elem { tag, attrs };
    assert(attrs_view(attrs@) =~= Seq::empty());
    doc.push_node(data)
}

} // verus!
