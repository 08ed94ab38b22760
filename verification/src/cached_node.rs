//! Nodes which reconcile their children with the children declared for them
//! in the current revision.

use vstd::prelude::*;
use crate::rsdom::{DocView, NodeId, NodeView, VirtDocument};

verus! {

/// A node together with the last child declared for it in the current
/// revision. Declaring children one after the other with
/// [`CachedNode::ensure_child_attached`] and then calling
/// [`CachedNode::remove_trailing_children`] leaves exactly the declared
/// children, in order.
pub struct CachedNode {
    last_child: Option<NodeId>,
    node: NodeId,
}

/// The child that the next declared child should take the place of: the
/// first child when nothing was declared yet, else the sibling after the last
/// declared child.
pub open spec fn slot_after(v: DocView, node: NodeId, last: Option<NodeId>) -> Option<NodeId> {
    match last {
        None => v.first_child(node),
        Some(c) => v.next_sibling(c),
    }
}

/// The nodes after attaching `new_child` at the slot after `last`.
pub open spec fn attached(v: DocView, node: NodeId, last: Option<NodeId>, new_child: NodeId) -> Seq<NodeView> {
    match slot_after(v, node, last) {
        Some(e) => if e == new_child { v.nodes } else { v.replace(node, new_child, e) },
        None => v.append(node, new_child),
    }
}

/// The nodes after the children of `p` at positions `k` up to `j` were
/// removed.
pub open spec fn cut_children(v: DocView, p: NodeId, k: int, j: int) -> Seq<NodeView> {
    let cs = v.children(p);
    Seq::new(v.nodes.len(), |y: int| {
        let n = v.nodes[y];
        if y == p {
            NodeView { parent: n.parent, children: cs.take(k) + cs.skip(j), data: n.data }
        } else if n.parent == Some(p) && k <= cs.index_of(y as NodeId) < j {
            NodeView { parent: None, children: n.children, data: n.data }
        } else {
            n
        }
    })
}

/// Where the children of `p` are cut off after `last`: behind it when it is
/// a child of `p`, at the start when there is no last child.
pub open spec fn keep_count(v: DocView, p: NodeId, last: Option<NodeId>) -> int {
    match last {
        None => 0,
        Some(c) => if v.parent(c) == Some(p) { v.children(p).index_of(c) + 1 } else { v.children(p).len() as int },
    }
}

impl CachedNode {
    pub closed spec fn node(&self) -> NodeId {
        self.node
    }

    pub closed spec fn last_child(&self) -> Option<NodeId> {
        self.last_child
    }

    /// A node with no child declared yet.
    pub fn new(node: NodeId) -> (r: CachedNode)
        ensures
            r.node() == node,
            r.last_child() is None,
    {
        CachedNode { last_child: None, node }
    }

    /// The underlying node.
    pub fn raw_node(&self) -> (r: NodeId)
        ensures
            r == self.node(),
    {
        self.node
    }

    /// Declares `new_child` as the next child: it takes the place of the
    /// child in its slot unless it is already there, or is appended when the
    /// slot is empty.
    pub fn ensure_child_attached(&mut self, doc: &mut VirtDocument, new_child: NodeId)
        requires
            old(doc).wf(),
            old(doc)@.valid(old(self).node()),
            old(doc)@.valid(new_child),
            old(self).last_child() matches Some(c) ==> old(doc)@.valid(c),
            slot_after(old(doc)@, old(self).node(), old(self).last_child()) != Some(new_child) ==> {
                &&& old(doc)@.is_elem(old(self).node())
                &&& !old(doc)@.contains(new_child, old(self).node())
                &&& slot_after(old(doc)@, old(self).node(), old(self).last_child()) matches Some(e)
                    ==> old(doc)@.children(old(self).node()).contains(e)
            },
        ensures
            final(doc).wf(),
            final(doc)@.nodes == attached(old(doc)@, old(self).node(), old(self).last_child(), new_child),
            final(self).node() == old(self).node(),
            final(self).last_child() == Some(new_child),
    {
        let prev_sibling = self.last_child;
        self.last_child = Some(new_child);
        let existing = match prev_sibling {
            None => doc.first_child(self.node),
            Some(p) => doc.next_sibling(p),
        };
        match existing {
            Some(e) => {
                if e != new_child {
                    proof {
                        let v = doc@;
                        let cs = v.children(self.node);
                        let j = choose|j: int| 0 <= j < cs.len() && cs[j] == e;
                        assert(v.nodes[self.node as int].children[j] == e);
                    }
                    doc.replace_child(self.node, new_child, e);
                }
            },
            None => {
                doc.append_child(self.node, new_child);
            },
        }
    }

    /// Removes the children after the last declared one (all of them when
    /// none was declared), so that the declared children are all that is
    /// left.
    pub fn remove_trailing_children(&mut self, doc: &mut VirtDocument)
        requires
            old(doc).wf(),
            old(doc)@.valid(old(self).node()),
            old(self).last_child() matches Some(c) ==> old(doc)@.valid(c) && (old(doc)@.parent(c) == Some(
                old(self).node(),
            ) || old(doc)@.next_sibling(c) is None),
        ensures
            final(doc).wf(),
            final(doc)@.nodes == cut_children(
                old(doc)@,
                old(self).node(),
                keep_count(old(doc)@, old(self).node(), old(self).last_child()),
                old(doc)@.children(old(self).node()).len() as int,
            ),
            final(self).node() == old(self).node(),
            final(self).last_child() == old(self).last_child(),
    {
        let ghost v = doc@;
        let p = self.node;
        let ghost cs = v.children(p);
        let ghost k = keep_count(v, p, self.last_child);
        let mut next_to_remove = match self.last_child {
            Some(c) => doc.next_sibling(c),
            None => doc.first_child(p),
        };
        let ghost mut j: int = k;
        proof {
            assert(cs.take(k) + cs.skip(k) =~= cs);
            match self.last_child {
                Some(c) => {
                    if v.parent(c) == Some(p) {
                        assert(v.children(p).contains(c));
                        let i = choose|i: int| 0 <= i < cs.len() && cs[i] == c;
                        assert(v.nodes[p as int].children[i] == c);
                        rsdom_index(v, p, c, i);
                    }
                },
                None => {},
            }
            assert(cut_children(v, p, k, k) =~= v.nodes) by {
                assert forall|y: int| 0 <= y < v.nodes.len() implies #[trigger] cut_children(v, p, k, k)[y] == v.nodes[y] by {
                    if y == p {
                        assert(cs.take(k) + cs.skip(k) =~= cs);
                    }
                }
            }
        }
        while next_to_remove.is_some()
            invariant
                v.wf(),
                v.valid(p),
                cs == v.children(p),
                0 <= k <= j <= cs.len(),
                doc.wf(),
                doc@.nodes == cut_children(v, p, k, j),
                next_to_remove == (if j < cs.len() { Some(cs[j]) } else { None::<NodeId> }),
            decreases cs.len() - j,
        {
            let to_remove = next_to_remove.unwrap();
            proof { cut_step_facts(v, p, k, j); }
            next_to_remove = doc.next_sibling(to_remove);
            let removed = doc.remove_child(p, to_remove);
            proof {
                cut_step(v, p, k, j);
                j = j + 1;
            }
        }
        proof {
            assert(j == cs.len());
        }
    }
}


/// The document after attaching `c` at the slot after `last`, with the ranks
/// that the move leaves behind.
pub open spec fn attach_view(v: DocView, p: NodeId, last: Option<NodeId>, c: NodeId) -> DocView {
    DocView {
        nodes: attached(v, p, last, c),
        rank: if slot_after(v, p, last) == Some(c) { v.rank } else { v.lifted_rank(c) },
    }
}

/// The document after declaring each node of `cs` in turn as a child of `p`.
pub open spec fn attach_all(v: DocView, p: NodeId, cs: Seq<NodeId>) -> DocView
    decreases cs.len(),
{
    if cs.len() == 0 {
        v
    } else {
        let w = attach_all(v, p, cs.drop_last());
        let last = if cs.len() > 1 { Some(cs[cs.len() - 2]) } else { None };
        attach_view(w, p, last, cs.last())
    }
}

/// The last node of `cs`, if any.
pub open spec fn last_of(cs: Seq<NodeId>) -> Option<NodeId> {
    if cs.len() > 0 { Some(cs.last()) } else { None }
}

/// The nodes after one revision that declares the children `cs` of `p` and
/// then removes the trailing ones.
pub open spec fn reconciled(v: DocView, p: NodeId, cs: Seq<NodeId>) -> Seq<NodeView> {
    let w = attach_all(v, p, cs);
    cut_children(w, p, keep_count(w, p, last_of(cs)), w.children(p).len() as int)
}

/// The slot after the `i`-th declared child is the child at position `i`.
proof fn lemma_slot(v: DocView, p: NodeId, i: int)
    requires
        v.wf(),
        v.valid(p),
        0 <= i <= v.children(p).len(),
    ensures
        slot_after(v, p, if i == 0 { None } else { Some(v.children(p)[i - 1]) }) == (if i < v.children(p).len() {
            Some(v.children(p)[i])
        } else {
            None::<NodeId>
        }),
{
    if i > 0 {
        let cs = v.children(p);
        let x = cs[i - 1];
        assert(v.nodes[p as int].children[i - 1] == x);
        assert(v.parent(x) == Some(p));
        rsdom_index(v, p, x, i - 1);
    }
}

/// A path in a later document that ends at `p` was a path before, when the
/// only nodes whose parent changed were detached or moved under `p`.
proof fn lemma_path_transfer(v: DocView, w: DocView, s: Seq<NodeId>, p: NodeId)
    requires
        w.wf(),
        w.is_path(s),
        s.last() == p,
        v.nodes.len() == w.nodes.len(),
        forall|y: NodeId| #![trigger w.parent(y)] w.valid(y) && w.parent(y) != v.parent(y) ==> w.parent(y) is None || w.parent(y) == Some(p),
    ensures
        v.is_path(s),
{
    assert forall|m: int| 1 <= m < s.len() implies v.parent(#[trigger] s[m]) == Some(s[m - 1]) by {
        assert(w.parent(s[m]) == Some(s[m - 1]));
        if w.parent(s[m]) != v.parent(s[m]) {
            assert(s[m - 1] == p);
            let t = s.subrange(m - 1, s.len() as int);
            assert forall|i: int| 0 <= i < t.len() implies w.valid(#[trigger] t[i]) by {
                assert(t[i] == s[i + m - 1]);
            }
            assert forall|i: int| 1 <= i < t.len() implies w.parent(#[trigger] t[i]) == Some(t[i - 1]) by {
                assert(t[i] == s[i + m - 1]);
                assert(t[i - 1] == s[i + m - 2]);
            }
            w.lemma_path_rank(t);
            assert(t[0] == p && t.last() == p);
        }
    }
}

/// Declaring the child at position `i` keeps the children before it and
/// puts the declared child at position `i`.
proof fn lemma_attach_step(v: DocView, p: NodeId, i: int, c: NodeId)
    requires
        v.wf(),
        v.valid(p),
        v.valid(c),
        v.is_elem(p),
        !v.contains(c, p),
        0 <= i <= v.children(p).len(),
        !v.children(p).take(i).contains(c),
    ensures
        ({
            let w = attach_view(v, p, if i == 0 { None } else { Some(v.children(p)[i - 1]) }, c);
            &&& w.wf()
            &&& w.nodes.len() == v.nodes.len()
            &&& w.is_elem(p)
            &&& w.children(p).len() > i
            &&& w.children(p).take(i) == v.children(p).take(i)
            &&& w.children(p)[i] == c
            &&& forall|a: NodeId| w.contains(a, p) ==> v.contains(a, p)
        }),
{
    let cs = v.children(p);
    let last = if i == 0 { None } else { Some(cs[i - 1]) };
    let w = attach_view(v, p, last, c);
    lemma_slot(v, p, i);
    v.lemma_detach(c);
    v.lemma_contains_self(c);
    let d = DocView { nodes: v.detach(c), rank: v.rank };
    if v.parent(c) == Some(p) {
        assert(v.nodes[p as int].children.contains(c));
        let m = choose|m: int| 0 <= m < cs.len() && cs[m] == c;
        if m < i {
            assert(cs.take(i)[m] == c);
        }
    }
    if i < cs.len() {
        let e = cs[i];
        if e == c {
            assert(w.nodes == v.nodes);
            assert(w.children(p).take(i) =~= cs.take(i));
        } else {
            assert(v.nodes[p as int].children[i] == e);
            assert(cs.contains(e));
            v.lemma_replace(p, c, e);
            let l = d.nodes[p as int].children;
            if v.parent(c) == Some(p) {
                let m = cs.index_of(c);
                assert(0 <= m < cs.len() && cs[m] == c);
                assert(m > i) by {
                    if m < i {
                        assert(cs.take(i)[m] == c);
                    }
                }
                assert(l == cs.remove(m));
                assert(l[i] == e);
                assert(l.no_duplicates());
                crate::rsdom::lemma_index_of_unique(l, e, i);
                assert(w.children(p).take(i) =~= cs.take(i));
            } else {
                assert(l == cs);
                rsdom_index(v, p, e, i);
                assert(w.children(p).take(i) =~= cs.take(i));
            }
            assert forall|y: NodeId| #![trigger w.parent(y)] w.valid(y) && w.parent(y) != v.parent(y) implies w.parent(y) is None || w.parent(y) == Some(p) by {
                if y != c && y != e {
                    assert(w.nodes[y as int] == d.nodes[y as int]);
                }
            }
            assert forall|a: NodeId| w.contains(a, p) implies v.contains(a, p) by {
                let s = choose|s: Seq<NodeId>| #[trigger] w.is_path(s) && s[0] == a && s.last() == p;
                lemma_path_transfer(v, w, s, p);
            }
        }
    } else {
        v.lemma_append(p, c);
        assert(d.nodes[p as int].children == cs) by {
            if v.parent(c) == Some(p) {
                assert(cs.take(i) =~= cs);
            }
        }
        assert(w.children(p).take(i) =~= cs.take(i));
        assert forall|y: NodeId| #![trigger w.parent(y)] w.valid(y) && w.parent(y) != v.parent(y) implies w.parent(y) is None || w.parent(y) == Some(p) by {
            if y != c {
                assert(w.nodes[y as int] == d.nodes[y as int]);
            }
        }
        assert forall|a: NodeId| w.contains(a, p) implies v.contains(a, p) by {
            let s = choose|s: Seq<NodeId>| #[trigger] w.is_path(s) && s[0] == a && s.last() == p;
            lemma_path_transfer(v, w, s, p);
        }
    }
}

/// Declaring the nodes `cs` one after the other makes them the first
/// children of `p`, in order.
pub proof fn lemma_attach_all(v: DocView, p: NodeId, cs: Seq<NodeId>)
    requires
        v.wf(),
        v.valid(p),
        v.is_elem(p),
        cs.no_duplicates(),
        forall|k: int| 0 <= k < cs.len() ==> v.valid(#[trigger] cs[k]) && !v.contains(cs[k], p),
    ensures
        ({
            let w = attach_all(v, p, cs);
            &&& w.wf()
            &&& w.nodes.len() == v.nodes.len()
            &&& w.is_elem(p)
            &&& w.children(p).len() >= cs.len()
            &&& w.children(p).take(cs.len() as int) == cs
            &&& forall|a: NodeId| w.contains(a, p) ==> v.contains(a, p)
        }),
    decreases cs.len(),
{
    if cs.len() == 0 {
        assert(v.children(p).take(0) =~= cs);
    } else {
        let prev = cs.drop_last();
        assert forall|k: int| 0 <= k < prev.len() implies v.valid(#[trigger] prev[k]) && !v.contains(prev[k], p) by {
            assert(prev[k] == cs[k]);
        }
        assert(prev.no_duplicates());
        lemma_attach_all(v, p, prev);
        let w0 = attach_all(v, p, prev);
        let i = prev.len() as int;
        let c = cs.last();
        assert(v.valid(cs[cs.len() - 1]));
        assert(!w0.children(p).take(i).contains(c)) by {
            if prev.contains(c) {
                let m = choose|m: int| 0 <= m < prev.len() && prev[m] == c;
                assert(cs[m] == cs[cs.len() - 1]);
            }
        }
        if i > 0 {
            assert(w0.children(p).take(i)[i - 1] == w0.children(p)[i - 1]);
            assert(cs[cs.len() - 2] == prev[i - 1]);
        }
        lemma_attach_step(w0, p, i, c);
        let w = attach_all(v, p, cs);
        assert(w.children(p).take(i + 1) =~= cs) by {
            assert(w.children(p).take(i) == prev);
        }
    }
}

/// One revision that declares the children `cs` of `p` and then removes the
/// trailing children leaves exactly `cs` as the children of `p`, in order,
/// whatever the children of `p` were before.
pub proof fn law_reconcile(v: DocView, p: NodeId, cs: Seq<NodeId>)
    requires
        v.wf(),
        v.valid(p),
        v.is_elem(p),
        cs.no_duplicates(),
        forall|k: int| 0 <= k < cs.len() ==> v.valid(#[trigger] cs[k]) && !v.contains(cs[k], p),
    ensures
        reconciled(v, p, cs)[p as int].children == cs,
{
    lemma_attach_all(v, p, cs);
    let w = attach_all(v, p, cs);
    let k = keep_count(w, p, last_of(cs));
    let n = cs.len() as int;
    if n > 0 {
        let x = cs.last();
        assert(w.children(p)[n - 1] == w.children(p).take(n)[n - 1]);
        assert(w.nodes[p as int].children[n - 1] == x);
        assert(w.parent(x) == Some(p));
        rsdom_index(w, p, x, n - 1);
        assert(k == n);
    }
    let kept = w.children(p).take(k) + w.children(p).skip(w.children(p).len() as int);
    assert(kept =~= cs);
}

/// The position of a child in its parent's child list is where it is found.
/// Cutting nothing leaves the nodes as they are.
proof fn lemma_cut_nothing(v: DocView, p: NodeId, k: int)
    requires
        0 <= k <= v.children(p).len(),
        v.valid(p),
    ensures
        cut_children(v, p, k, k) == v.nodes,
{
    let cs = v.children(p);
    assert(cut_children(v, p, k, k) =~= v.nodes) by {
        assert forall|y: int| 0 <= y < v.nodes.len() implies #[trigger] cut_children(v, p, k, k)[y] == v.nodes[y] by {
            if y == p {
                assert(cs.take(k) + cs.skip(k) =~= cs);
            }
        }
    }
}

/// Removing the trailing children a second time in the same revision
/// changes nothing: the first removal already left exactly the declared
/// children.
pub proof fn law_remove_trailing_idempotent(v: DocView, p: NodeId, last: Option<NodeId>)
    requires
        v.wf(),
        v.valid(p),
        last matches Some(c) ==> v.valid(c),
    ensures
        ({
            let w = DocView {
                nodes: cut_children(v, p, keep_count(v, p, last), v.children(p).len() as int),
                rank: v.rank,
            };
            cut_children(w, p, keep_count(w, p, last), w.children(p).len() as int) == w.nodes
        }),
{
    let cs = v.children(p);
    let k = keep_count(v, p, last);
    let w = DocView { nodes: cut_children(v, p, k, cs.len() as int), rank: v.rank };
    match last {
        Some(c) => {
            if v.parent(c) == Some(p) {
                assert(v.nodes[c as int].parent is Some);
                assert(cs.contains(c));
                let i = choose|i: int| 0 <= i < cs.len() && cs[i] == c;
                assert(v.nodes[p as int].children[i] == c);
                rsdom_index(v, p, c, i);
                assert(c != p) by {
                    assert(v.rank[c as int] < v.rank[p as int]);
                }
                assert(w.nodes[c as int] == v.nodes[c as int]);
                assert(w.children(p) == cs.take(k) + cs.skip(cs.len() as int));
                assert(w.children(p) =~= cs.take(k));
                assert(w.children(p)[i] == c);
                assert(w.children(p).no_duplicates()) by {
                    assert(cs.no_duplicates());
                }
                crate::rsdom::lemma_index_of_unique(w.children(p), c, i);
                lemma_cut_nothing(w, p, k);
            } else {
                lemma_cut_nothing(v, p, cs.len() as int);
                assert(w.nodes == v.nodes);
                lemma_cut_nothing(w, p, cs.len() as int);
            }
        },
        None => {
            assert(w.children(p) == cs.take(0) + cs.skip(cs.len() as int));
            assert(w.children(p) =~= Seq::<NodeId>::empty());
            lemma_cut_nothing(w, p, 0);
        },
    }
}

proof fn rsdom_index(v: DocView, p: NodeId, c: NodeId, i: int)
    requires
        v.wf(),
        v.valid(p),
        0 <= i < v.children(p).len(),
        v.children(p)[i] == c,
    ensures
        v.children(p).index_of(c) == i,
{
    crate::rsdom::lemma_index_of_unique(v.children(p), c, i);
}

/// What the state midway through the removal looks like: the next child to
/// remove sits right after the kept ones, and after it come the rest.
proof fn cut_step_facts(v: DocView, p: NodeId, k: int, j: int)
    requires
        v.wf(),
        v.valid(p),
        0 <= k <= j < v.children(p).len(),
    ensures
        ({
            let cs = v.children(p);
            let w = DocView { nodes: cut_children(v, p, k, j), rank: v.rank };
            &&& w.valid(cs[j])
            &&& w.parent(cs[j]) == Some(p)
            &&& w.children(p) == cs.take(k) + cs.skip(j)
            &&& w.children(p).index_of(cs[j]) == k
            &&& w.next_sibling(cs[j]) == (if j + 1 < cs.len() { Some(cs[j + 1]) } else { None::<NodeId> })
        }),
{
    let cs = v.children(p);
    let w = DocView { nodes: cut_children(v, p, k, j), rank: v.rank };
    let x = cs[j];
    assert(v.nodes[p as int].children[j] == x);
    assert(x < v.nodes.len());
    assert(v.parent(x) == Some(p));
    rsdom_index(v, p, x, j);
    assert(x != p);
    let l = cs.take(k) + cs.skip(j);
    assert(w.children(p) == l);
    assert(l[k] == x);
    assert(l.no_duplicates()) by {
        assert forall|a: int, b: int| 0 <= a < l.len() && 0 <= b < l.len() && a != b implies l[a] != l[b] by {
            let aa = if a < k { a } else { a - k + j };
            let bb = if b < k { b } else { b - k + j };
            assert(l[a] == cs[aa]);
            assert(l[b] == cs[bb]);
        }
    }
    crate::rsdom::lemma_index_of_unique(l, x, k);
    if j + 1 < cs.len() {
        assert(l[k + 1] == cs[j + 1]);
    }
}

/// Removing the next child extends the cut by one.
proof fn cut_step(v: DocView, p: NodeId, k: int, j: int)
    requires
        v.wf(),
        v.valid(p),
        0 <= k <= j < v.children(p).len(),
    ensures
        (DocView { nodes: cut_children(v, p, k, j), rank: v.rank }).detach(v.children(p)[j]) == cut_children(
            v,
            p,
            k,
            j + 1,
        ),
{
    cut_step_facts(v, p, k, j);
    let cs = v.children(p);
    let w = DocView { nodes: cut_children(v, p, k, j), rank: v.rank };
    let x = cs[j];
    let d = w.detach(x);
    let target = cut_children(v, p, k, j + 1);
    assert(w.children(p).remove(k) =~= cs.take(k) + cs.skip(j + 1));
    rsdom_index(v, p, x, j);
    assert forall|y: int| 0 <= y < v.nodes.len() implies #[trigger] d[y] == target[y] by {
        if y == p {
            assert(d[y].children =~= target[y].children);
        } else if y == x {
        } else {
            if v.nodes[y].parent == Some(p) {
                assert(v.children(p).contains(y as NodeId));
                let i = choose|i: int| 0 <= i < cs.len() && cs[i] == y as NodeId;
                assert(v.nodes[p as int].children[i] == y as NodeId);
                rsdom_index(v, p, y as NodeId, i);
            }
        }
    }
    assert(d =~= target);
}

} // verus!
