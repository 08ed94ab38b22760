//! User-oriented queries over a DOM subtree, in the style of DOM Testing
//! Library: find nodes by their label text, text, test id and the like.
//!
//! These tools lend themselves to this basic test design:
//!
//! 1. setup test DOM
//! 1. execute user-oriented queries to find nodes of interest (see
//!    [`VirtDocument::find`] and [`Finder::by_label_text`])
//! 1. assert on results

use vstd::prelude::*;
use vstd::string::*;
use crate::html::inner_text;
use crate::rsdom::{DataView, DocView, NodeId, VirtData, VirtDocument};
use crate::normalize::{normalize, normalize_whitespace};

verus! {

/// Which portion of a queried node to examine.
#[derive(Clone, Copy, Debug)]
pub enum Strategy {
    LabelText,
    PlaceholderText,
    Text,
    DisplayValue,
    AltText,
    Title,
    Role,
    TestId,
}

/// The outcome of a failed query.
#[derive(Debug)]
pub enum QueryError {
    /// Couldn't find any matching nodes.
    Missing,
    /// Found more nodes than the 1 requested.
    TooMany {
        /// the first node we found
        matched: NodeId,
        /// unexpected nodes
        extra: Vec<NodeId>,
    },
}

/// Executes a search strategy over a DOM container's subtree via depth-first
/// pre-order traversal.
#[derive(Debug)]
pub struct Finder {
    target: NodeId,
}

/// The final description of a subtree query. The methods on this struct
/// execute the underlying search and return the results in various forms.
#[derive(Debug)]
pub struct Found {
    strat: Strategy,
    pattern: String,
    target: NodeId,
}

/// The proper descendants of `n` in depth-first pre-order: each child comes
/// before its own descendants, and children in order.
pub open spec fn descendants(v: DocView, n: NodeId) -> Seq<NodeId>
    decreases v.rank[n as int], 1nat, 0nat,
{
    descendants_from(v, n, 0)
}

/// The pre-order traversal of the children of `n` from index `i` on.
pub open spec fn descendants_from(v: DocView, n: NodeId, i: nat) -> Seq<NodeId>
    decreases v.rank[n as int], 0nat, v.children(n).len() - i,
{
    let cs = v.children(n);
    if i < cs.len() {
        let c = cs[i as int];
        seq![c] + (if v.rank[c as int] < v.rank[n as int] { descendants(v, c) } else { Seq::empty() })
            + descendants_from(v, n, i + 1)
    } else {
        Seq::empty()
    }
}

/// `x` is a `label` element whose `for` attribute is `id`.
pub open spec fn is_label_for(v: DocView, id: Seq<char>, x: NodeId) -> bool {
    &&& v.nodes[x as int].data matches DataView::Elem { tag, .. } && tag == "label"@
    &&& v.attribute(x, "for"@) == Some(id)
}

/// `i` is the first position in `s` of a label for `id`.
pub open spec fn is_first_label(v: DocView, s: Seq<NodeId>, id: Seq<char>, i: int) -> bool {
    &&& 0 <= i < s.len()
    &&& is_label_for(v, id, s[i])
    &&& forall|j: int| 0 <= j < i ==> !is_label_for(v, id, s[j])
}

/// The first label for `id` below `target` in document order (what the
/// selector `label[for=id]` selects).
pub open spec fn label_for(v: DocView, target: NodeId, id: Seq<char>) -> Option<NodeId> {
    let ds = descendants(v, target);
    if exists|i: int| #[trigger] is_first_label(v, ds, id, i) {
        Some(ds[choose|i: int| is_first_label(v, ds, id, i)])
    } else {
        None
    }
}

/// The text of `node` that strategy `strat` examines, if it has one.
pub open spec fn query_text(v: DocView, strat: Strategy, target: NodeId, node: NodeId) -> Option<Seq<char>> {
    match strat {
        Strategy::Text => Some(inner_text(v, node)),
        Strategy::LabelText => match v.attribute(node, "id"@) {
            Some(id) => match label_for(v, target, id) {
                Some(l) => Some(inner_text(v, l)),
                None => None,
            },
            None => None,
        },
        Strategy::AltText => v.attribute(node, "alt"@),
        Strategy::Title => v.attribute(node, "title"@),
        Strategy::DisplayValue => v.attribute(node, "value"@),
        Strategy::PlaceholderText => v.attribute(node, "placeholder"@),
        Strategy::Role => v.attribute(node, "role"@),
        Strategy::TestId => v.attribute(node, "data-testid"@),
    }
}

/// `node` is a `title` element whose parent is an `svg` element.
pub open spec fn is_svg_title(v: DocView, node: NodeId) -> bool {
    &&& v.nodes[node as int].data matches DataView::Elem { tag, .. } && tag == "title"@
    &&& match v.parent(node) {
        Some(p) => v.nodes[p as int].data matches DataView::Elem { tag, .. } && tag == "svg"@,
        None => false,
    }
}

/// The second text of `node` that strategy `strat` examines, if it has one:
/// a label-text query also reads the node's own `aria-label`, and a title
/// query also reads the text of an svg `title` element.
pub open spec fn other_query_text(v: DocView, strat: Strategy, node: NodeId) -> Option<Seq<char>> {
    match strat {
        Strategy::LabelText => v.attribute(node, "aria-label"@),
        Strategy::Title => if is_svg_title(v, node) { Some(inner_text(v, node)) } else { None },
        _ => None,
    }
}

/// `node` matches when one of its examined texts, normalized, equals the
/// pattern.
pub open spec fn query_matches(v: DocView, strat: Strategy, target: NodeId, pattern: Seq<char>, node: NodeId) -> bool {
    ||| query_text(v, strat, target, node) matches Some(t) && normalize(t) == pattern
    ||| other_query_text(v, strat, node) matches Some(t) && normalize(t) == pattern
}

/// The matching nodes of the subtree of `target`, in pre-order.
pub open spec fn query_all(v: DocView, strat: Strategy, target: NodeId, pattern: Seq<char>) -> Seq<NodeId> {
    descendants(v, target).filter(|x: NodeId| query_matches(v, strat, target, pattern, x))
}

proof fn lemma_child(v: DocView, n: NodeId, i: int)
    requires
        v.wf(),
        v.valid(n),
        0 <= i < v.children(n).len(),
    ensures
        v.valid(v.children(n)[i]),
        v.rank[v.children(n)[i] as int] < v.rank[n as int],
{
    assert(v.nodes[n as int].children[i] == v.children(n)[i]);
}

/// Every node of a pre-order traversal is a valid node.
proof fn lemma_descendants_valid(v: DocView, n: NodeId, i: nat)
    requires
        v.wf(),
        v.valid(n),
    ensures
        forall|k: int| 0 <= k < descendants_from(v, n, i).len() ==> v.valid(#[trigger] descendants_from(v, n, i)[k]),
    decreases v.rank[n as int], v.children(n).len() - i,
{
    let cs = v.children(n);
    if i < cs.len() {
        let c = cs[i as int];
        lemma_child(v, n, i as int);
        lemma_descendants_valid(v, c, 0);
        lemma_descendants_valid(v, n, i + 1);
        let a = seq![c];
        let b = descendants(v, c);
        let r = descendants_from(v, n, i + 1);
        assert(descendants_from(v, n, i) == a + b + r);
        assert forall|k: int| 0 <= k < (a + b + r).len() implies v.valid(#[trigger] (a + b + r)[k]) by {
            if k == 0 {
            } else if k < 1 + b.len() {
                assert((a + b + r)[k] == b[k - 1]);
                assert(b == descendants_from(v, c, 0));
                assert(v.valid(descendants_from(v, c, 0)[k - 1]));
            } else {
                assert((a + b + r)[k] == r[k - 1 - b.len()]);
            }
        }
    }
}

proof fn lemma_all_descendants_valid(v: DocView, n: NodeId)
    requires
        v.wf(),
        v.valid(n),
    ensures
        forall|k: int| 0 <= k < descendants(v, n).len() ==> v.valid(#[trigger] descendants(v, n)[k]),
{
    lemma_descendants_valid(v, n, 0);
    assert(descendants(v, n) == descendants_from(v, n, 0));
}

/// A node ranks no higher than any node that contains it, and strictly lower
/// than any other.
proof fn lemma_contains_rank(v: DocView, a: NodeId, x: NodeId)
    requires
        v.wf(),
        v.contains(a, x),
    ensures
        v.valid(a),
        v.valid(x),
        v.rank[x as int] <= v.rank[a as int],
        a != x ==> v.rank[x as int] < v.rank[a as int],
{
    let s = choose|s: Seq<NodeId>| #[trigger] v.is_path(s) && s[0] == a && s.last() == x;
    assert(v.valid(s[0]) && v.valid(s[s.len() - 1]));
    if s.len() >= 2 {
        v.lemma_path_rank(s);
    }
}

/// A node with a parent ranks below it.
proof fn lemma_parent_rank(v: DocView, x: NodeId)
    requires
        v.wf(),
        v.valid(x),
        v.parent(x) is Some,
    ensures
        v.valid(v.parent(x)->0),
        v.rank[x as int] < v.rank[v.parent(x)->0 as int],
{
    let q = v.parent(x)->0;
    assert(v.nodes[x as int].parent is Some);
    assert(v.nodes[q as int].children.contains(x));
    let i = choose|i: int| 0 <= i < v.nodes[q as int].children.len() && v.nodes[q as int].children[i] == x;
    assert(v.nodes[q as int].children[i] == x);
}

/// Two nodes that both contain `x` are nested: one contains the other.
proof fn lemma_ancestors_nested(v: DocView, a: NodeId, b: NodeId, x: NodeId)
    requires
        v.wf(),
        v.contains(a, x),
        v.contains(b, x),
    ensures
        v.contains(a, b) || v.contains(b, a),
    decreases v.rank[a as int] - v.rank[x as int],
{
    lemma_contains_rank(v, a, x);
    if x == a {
    } else if x == b {
    } else {
        v.lemma_contains_parent(a, x);
        v.lemma_contains_parent(b, x);
        let q = v.parent(x)->0;
        lemma_parent_rank(v, x);
        lemma_contains_rank(v, a, q);
        lemma_ancestors_nested(v, a, b, q);
    }
}

/// The subtrees of two different children of one node share no node.
proof fn lemma_siblings_disjoint(v: DocView, n: NodeId, j1: int, j2: int, x: NodeId)
    requires
        v.wf(),
        v.valid(n),
        0 <= j1 < v.children(n).len(),
        0 <= j2 < v.children(n).len(),
        j1 != j2,
    ensures
        !(v.contains(v.children(n)[j1], x) && v.contains(v.children(n)[j2], x)),
{
    if v.contains(v.children(n)[j1], x) && v.contains(v.children(n)[j2], x) {
        let c1 = v.children(n)[j1];
        let c2 = v.children(n)[j2];
        assert(v.nodes[n as int].children[j1] == c1);
        assert(v.nodes[n as int].children[j2] == c2);
        assert(v.nodes[n as int].children.no_duplicates());
        assert(c1 != c2);
        lemma_ancestors_nested(v, c1, c2, x);
        if v.contains(c1, c2) {
            v.lemma_contains_parent(c1, c2);
            lemma_contains_rank(v, c1, n);
        } else {
            v.lemma_contains_parent(c2, c1);
            lemma_contains_rank(v, c2, n);
        }
    }
}

/// `x` lies in the subtree of one of the children of `n` from index `i` on.
pub open spec fn below_from(v: DocView, n: NodeId, i: nat, x: NodeId) -> bool {
    exists|j: int| i <= j < v.children(n).len() && #[trigger] v.contains(v.children(n)[j], x)
}

/// Each node of the traversal of the children of `n` from index `i` lies in
/// the subtree of one of those children.
proof fn lemma_descendants_from_below(v: DocView, n: NodeId, i: nat)
    requires
        v.wf(),
        v.valid(n),
    ensures
        forall|k: int| 0 <= k < descendants_from(v, n, i).len()
            ==> below_from(v, n, i, #[trigger] descendants_from(v, n, i)[k]),
    decreases v.rank[n as int], v.children(n).len() - i,
{
    let cs = v.children(n);
    if i < cs.len() {
        let c = cs[i as int];
        lemma_child(v, n, i as int);
        assert(v.nodes[n as int].children[i as int] == c);
        lemma_descendants_from_below(v, c, 0);
        lemma_descendants_from_below(v, n, i + 1);
        let b = descendants(v, c);
        let r = descendants_from(v, n, i + 1);
        let d = descendants_from(v, n, i);
        assert(d == seq![c] + b + r);
        assert(b == descendants_from(v, c, 0));
        assert forall|k: int| 0 <= k < d.len() implies below_from(v, n, i, #[trigger] d[k]) by {
            if k == 0 {
                v.lemma_contains_self(c);
                assert(v.contains(cs[i as int], d[k]));
            } else if k < 1 + b.len() {
                let x = b[k - 1];
                assert(d[k] == x);
                assert(below_from(v, c, 0, descendants_from(v, c, 0)[k - 1]));
                let j = choose|j: int| 0 <= j < v.children(c).len() && #[trigger] v.contains(v.children(c)[j], x);
                lemma_child(v, c, j);
                assert(v.nodes[c as int].children[j] == v.children(c)[j]);
                v.lemma_contains_prepend(c, v.children(c)[j], x);
                assert(v.contains(cs[i as int], x));
            } else {
                assert(d[k] == r[k - 1 - b.len()]);
                let x = r[k - 1 - b.len()];
                assert(below_from(v, n, i + 1, x));
                let j = choose|j: int| i + 1 <= j < cs.len() && #[trigger] v.contains(cs[j], x);
                assert(v.contains(cs[j], x));
            }
        }
    }
}

/// Every node of the traversal of `n` is a proper descendant of `n`.
proof fn lemma_descendants_proper(v: DocView, n: NodeId)
    requires
        v.wf(),
        v.valid(n),
    ensures
        forall|k: int| 0 <= k < descendants(v, n).len() ==> {
            let x = #[trigger] descendants(v, n)[k];
            v.contains(n, x) && x != n
        },
{
    lemma_descendants_from_below(v, n, 0);
    let d = descendants(v, n);
    assert(d == descendants_from(v, n, 0));
    assert forall|k: int| 0 <= k < d.len() implies v.contains(n, #[trigger] d[k]) && d[k] != n by {
        let x = d[k];
        assert(below_from(v, n, 0, descendants_from(v, n, 0)[k]));
        let j = choose|j: int| 0 <= j < v.children(n).len() && #[trigger] v.contains(v.children(n)[j], x);
        let c = v.children(n)[j];
        lemma_child(v, n, j);
        assert(v.nodes[n as int].children[j] == c);
        v.lemma_contains_prepend(n, c, x);
        lemma_contains_rank(v, c, x);
    }
}

/// The traversal of the children of `n` from index `i` repeats no node.
proof fn lemma_descendants_from_distinct(v: DocView, n: NodeId, i: nat)
    requires
        v.wf(),
        v.valid(n),
    ensures
        descendants_from(v, n, i).no_duplicates(),
    decreases v.rank[n as int], v.children(n).len() - i,
{
    let cs = v.children(n);
    if i < cs.len() {
        let c = cs[i as int];
        lemma_child(v, n, i as int);
        lemma_descendants_from_distinct(v, c, 0);
        lemma_descendants_from_distinct(v, n, i + 1);
        lemma_descendants_proper(v, c);
        lemma_descendants_from_below(v, n, i + 1);
        let b = descendants(v, c);
        let r = descendants_from(v, n, i + 1);
        let d = descendants_from(v, n, i);
        assert(d == seq![c] + b + r);
        assert(b == descendants_from(v, c, 0));
        assert forall|p: int, q: int| 0 <= p < q < d.len() implies d[p] != d[q] by {
            if q < 1 + b.len() {
                assert(d[q] == b[q - 1]);
                if p == 0 {
                    assert(b[q - 1] != c);
                } else {
                    assert(d[p] == b[p - 1]);
                }
            } else {
                let y = r[q - 1 - b.len()];
                assert(d[q] == y);
                assert(below_from(v, n, i + 1, r[q - 1 - b.len()]));
                let j = choose|j: int| i + 1 <= j < cs.len() && #[trigger] v.contains(cs[j], y);
                if p == 0 {
                    if y == c {
                        v.lemma_contains_self(c);
                        lemma_siblings_disjoint(v, n, i as int, j, y);
                    }
                } else if p < 1 + b.len() {
                    assert(d[p] == b[p - 1]);
                    if b[p - 1] == y {
                        assert(v.contains(c, b[p - 1]));
                        lemma_siblings_disjoint(v, n, i as int, j, y);
                    }
                } else {
                    assert(d[p] == r[p - 1 - b.len()]);
                }
            }
        }
    }
}

/// A node is among the traversal of the children of `n` from index `i`
/// when it is one of those children or lies in the traversal of one.
proof fn lemma_descendants_from_includes(v: DocView, n: NodeId, i: nat, j: int, y: NodeId)
    requires
        v.wf(),
        v.valid(n),
        i <= j < v.children(n).len(),
        y == v.children(n)[j] || descendants(v, v.children(n)[j]).contains(y),
    ensures
        descendants_from(v, n, i).contains(y),
    decreases j - i,
{
    let cs = v.children(n);
    let c = cs[i as int];
    lemma_child(v, n, i as int);
    let b = descendants(v, c);
    let r = descendants_from(v, n, i + 1);
    let d = descendants_from(v, n, i);
    assert(d == seq![c] + b + r);
    if j == i {
        if y == c {
            assert(d[0] == y);
        } else {
            let k = choose|k: int| 0 <= k < b.len() && b[k] == y;
            assert(d[1 + k] == y);
        }
    } else {
        lemma_descendants_from_includes(v, n, i + 1, j, y);
        let k = choose|k: int| 0 <= k < r.len() && r[k] == y;
        assert(d[1 + b.len() + k] == y);
    }
}

/// Every proper descendant of `n` is in its traversal.
proof fn lemma_descendants_complete(v: DocView, n: NodeId, x: NodeId)
    requires
        v.wf(),
        v.valid(n),
        v.contains(n, x),
        x != n,
    ensures
        descendants(v, n).contains(x),
    decreases v.rank[n as int],
{
    let s = choose|s: Seq<NodeId>| #[trigger] v.is_path(s) && s[0] == n && s.last() == x;
    assert(s.len() >= 2);
    let c = s[1];
    assert(v.parent(s[1]) == Some(s[0]));
    let t = s.subrange(1, s.len() as int);
    assert forall|k: int| 0 <= k < t.len() implies v.valid(#[trigger] t[k]) by {
        assert(t[k] == s[k + 1]);
    }
    assert forall|k: int| 1 <= k < t.len() implies v.parent(#[trigger] t[k]) == Some(t[k - 1]) by {
        assert(t[k] == s[k + 1]);
        assert(v.parent(s[k + 1]) == Some(s[k]));
    }
    assert(v.is_path(t) && t[0] == c && t.last() == x);
    assert(v.contains(c, x));
    assert(v.valid(c));
    assert(v.nodes[c as int].parent is Some);
    assert(v.children(n).contains(c));
    let j = choose|j: int| 0 <= j < v.children(n).len() && v.children(n)[j] == c;
    lemma_child(v, n, j);
    if x != c {
        lemma_descendants_complete(v, c, x);
    }
    lemma_descendants_from_includes(v, n, 0, j, x);
}

/// The pre-order traversal of `n` holds each proper descendant of `n`
/// exactly once, and nothing else.
pub proof fn law_descendants_each_once(v: DocView, n: NodeId)
    requires
        v.wf(),
        v.valid(n),
    ensures
        descendants(v, n).no_duplicates(),
        forall|x: NodeId| #[trigger] descendants(v, n).contains(x) <==> (v.contains(n, x) && x != n),
{
    lemma_descendants_from_distinct(v, n, 0);
    lemma_descendants_proper(v, n);
    assert forall|x: NodeId| #[trigger] descendants(v, n).contains(x) <==> (v.contains(n, x) && x != n) by {
        if descendants(v, n).contains(x) {
            let k = choose|k: int| 0 <= k < descendants(v, n).len() && descendants(v, n)[k] == x;
            assert(descendants(v, n)[k] == x);
        }
        if v.contains(n, x) && x != n {
            lemma_descendants_complete(v, n, x);
        }
    }
}

/// Filtering keeps a sequence free of repeats.
proof fn lemma_filter_distinct(s: Seq<NodeId>, pred: spec_fn(NodeId) -> bool)
    requires
        s.no_duplicates(),
    ensures
        s.filter(pred).no_duplicates(),
    decreases s.len(),
{
    if s.len() > 0 {
        let t = s.drop_last();
        let x = s.last();
        assert(t.no_duplicates());
        lemma_filter_distinct(t, pred);
        assert(s == t.push(x));
        t.lemma_filter_push(x, pred);
        if pred(x) {
            let f = t.filter(pred);
            if f.contains(x) {
                t.lemma_filter_contains_rev(pred, x);
                let k = choose|k: int| 0 <= k < t.len() && t[k] == x;
                assert(s[k] == s[s.len() - 1]);
            }
            assert(f.push(x).no_duplicates()) by {
                assert forall|p: int, q: int| 0 <= p < q < f.push(x).len() implies f.push(x)[p] != f.push(x)[q] by {
                    if q == f.len() {
                        assert(f.push(x)[p] == f[p]);
                        assert(f.contains(f[p]));
                    } else {
                        assert(f.push(x)[p] == f[p]);
                        assert(f.push(x)[q] == f[q]);
                    }
                }
            }
        }
    }
}

/// A query returns each matching proper descendant of its target exactly
/// once, and nothing else.
pub proof fn law_query_all_each_once(v: DocView, strat: Strategy, target: NodeId, pattern: Seq<char>)
    requires
        v.wf(),
        v.valid(target),
    ensures
        query_all(v, strat, target, pattern).no_duplicates(),
        forall|x: NodeId| #[trigger] query_all(v, strat, target, pattern).contains(x) <==> (v.contains(target, x)
            && x != target && query_matches(v, strat, target, pattern, x)),
{
    let pred = |x: NodeId| query_matches(v, strat, target, pattern, x);
    let d = descendants(v, target);
    law_descendants_each_once(v, target);
    lemma_filter_distinct(d, pred);
    assert(query_all(v, strat, target, pattern) == d.filter(pred));
    assert forall|x: NodeId| #[trigger] query_all(v, strat, target, pattern).contains(x) <==> (v.contains(target, x)
        && x != target && query_matches(v, strat, target, pattern, x)) by {
        if d.filter(pred).contains(x) {
            d.lemma_filter_contains_rev(pred, x);
        }
        if v.contains(target, x) && x != target && pred(x) {
            assert(d.contains(x));
            let k = choose|k: int| 0 <= k < d.len() && d[k] == x;
            d.lemma_filter_contains(pred, k);
        }
    }
}

/// A by-text query reads the rendered text of elements only: a text node
/// examines the empty text, so a by-text query with a non-empty pattern
/// returns elements alone.
pub proof fn law_by_text_returns_elements(v: DocView, target: NodeId, pattern: Seq<char>)
    requires
        v.wf(),
        v.valid(target),
        pattern.len() > 0,
    ensures
        forall|x: NodeId| #[trigger] query_all(v, Strategy::Text, target, pattern).contains(x) ==> v.is_elem(x),
        forall|x: NodeId| v.valid(x) && !v.is_elem(x) ==> !query_matches(v, Strategy::Text, target, pattern, x),
{
    law_query_all_each_once(v, Strategy::Text, target, pattern);
    assert(normalize(Seq::<char>::empty()) =~= Seq::<char>::empty());
    assert forall|x: NodeId| v.valid(x) && !v.is_elem(x) implies !query_matches(v, Strategy::Text, target, pattern, x) by {
        assert(inner_text(v, x) == Seq::<char>::empty());
    }
    assert forall|x: NodeId| #[trigger] query_all(v, Strategy::Text, target, pattern).contains(x) implies v.is_elem(x) by {
        assert(v.contains(target, x));
        let s = choose|s: Seq<NodeId>| #[trigger] v.is_path(s) && s[0] == target && s.last() == x;
        assert(v.valid(s[s.len() - 1]));
    }
}

impl VirtDocument {
    /// Begin a subtree query. The returned value supports methods like
    /// [`Finder::by_label_text`] which create queries against this
    /// container's children.
    pub fn find(&self, target: NodeId) -> (f: Finder)
        ensures
            f.target() == target,
    {
        Finder { target }
    }

    /// Performs a depth-first pre-order traversal of the containing node,
    /// adding all of its transitive children to `queue`.
    pub fn collect_children_dfs_preorder(&self, n: NodeId, queue: &mut Vec<NodeId>)
        requires
            self.wf(),
            self@.valid(n),
        ensures
            final(queue)@ == old(queue)@ + descendants(self@, n),
        decreases self@.rank[n as int], 1nat, 0nat,
    {
        self.collect_from(n, 0, queue);
    }

    fn collect_from(&self, n: NodeId, i: usize, queue: &mut Vec<NodeId>)
        requires
            self.wf(),
            self@.valid(n),
            i <= self@.children(n).len(),
        ensures
            final(queue)@ == old(queue)@ + descendants_from(self@, n, i as nat),
        decreases self@.rank[n as int], 0nat, self@.children(n).len() - i,
    {
        let children = self.children(n);
        if i < children.len() {
            let c = children[i];
            proof { lemma_child(self@, n, i as int); }
            queue.push(c);
            self.collect_children_dfs_preorder(c, queue);
            self.collect_from(n, i + 1, queue);
            assert(queue@ =~= old(queue)@ + descendants_from(self@, n, i as nat));
        } else {
            assert(queue@ =~= old(queue)@ + descendants_from(self@, n, i as nat));
        }
    }
}

impl Finder {
    pub closed spec fn target(&self) -> NodeId {
        self.target
    }

    /// Find by `label`'s or `aria-label`'s normalized text content.
    ///
    /// The default choice for selecting form elements as it most closely
    /// mirrors how users interact with forms.
    pub fn by_label_text(&self, pattern: &str) -> (f: Found)
        ensures
            f.strategy() == Strategy::LabelText,
            f.pattern() == pattern@,
            f.target() == self.target(),
    {
        Found { strat: Strategy::LabelText, pattern: pattern.to_string(), target: self.target }
    }

    /// Find by `input`'s `placeholder` value.
    pub fn by_placeholder_text(&self, pattern: &str) -> (f: Found)
        ensures
            f.strategy() == Strategy::PlaceholderText,
            f.pattern() == pattern@,
            f.target() == self.target(),
    {
        Found { strat: Strategy::PlaceholderText, pattern: pattern.to_string(), target: self.target }
    }

    /// Find by aria `role`.
    pub fn by_role(&self, pattern: &str) -> (f: Found)
        ensures
            f.strategy() == Strategy::Role,
            f.pattern() == pattern@,
            f.target() == self.target(),
    {
        Found { strat: Strategy::Role, pattern: pattern.to_string(), target: self.target }
    }

    /// Find by element's normalized text content.
    pub fn by_text(&self, pattern: &str) -> (f: Found)
        ensures
            f.strategy() == Strategy::Text,
            f.pattern() == pattern@,
            f.target() == self.target(),
    {
        Found { strat: Strategy::Text, pattern: pattern.to_string(), target: self.target }
    }

    /// Find by form element's current `value`.
    pub fn by_display_value(&self, pattern: &str) -> (f: Found)
        ensures
            f.strategy() == Strategy::DisplayValue,
            f.pattern() == pattern@,
            f.target() == self.target(),
    {
        Found { strat: Strategy::DisplayValue, pattern: pattern.to_string(), target: self.target }
    }

    /// Find by `img`'s `alt` attribute.
    pub fn by_alt_text(&self, pattern: &str) -> (f: Found)
        ensures
            f.strategy() == Strategy::AltText,
            f.pattern() == pattern@,
            f.target() == self.target(),
    {
        Found { strat: Strategy::AltText, pattern: pattern.to_string(), target: self.target }
    }

    /// Find by `title` attribute's or svg `title` tag's normalized text content.
    pub fn by_title(&self, pattern: &str) -> (f: Found)
        ensures
            f.strategy() == Strategy::Title,
            f.pattern() == pattern@,
            f.target() == self.target(),
    {
        Found { strat: Strategy::Title, pattern: pattern.to_string(), target: self.target }
    }

    /// Find by `data-testid` attribute. Not visible to humans, only use as a
    /// last resort.
    pub fn by_test_id(&self, pattern: &str) -> (f: Found)
        ensures
            f.strategy() == Strategy::TestId,
            f.pattern() == pattern@,
            f.target() == self.target(),
    {
        Found { strat: Strategy::TestId, pattern: pattern.to_string(), target: self.target }
    }
}


impl Found {
    pub closed spec fn strategy(&self) -> Strategy {
        self.strat
    }

    pub closed spec fn pattern(&self) -> Seq<char> {
        self.pattern@
    }

    pub closed spec fn target(&self) -> NodeId {
        self.target
    }

    /// The first label for `id` below the queried container.
    fn label_for(&self, doc: &VirtDocument, id: &String) -> (r: Option<NodeId>)
        requires
            doc.wf(),
            doc@.valid(self.target),
        ensures
            r == label_for(doc@, self.target, id@),
    {
        let ghost v = doc@;
        let mut ds: Vec<NodeId> = Vec::new();
        doc.collect_children_dfs_preorder(self.target, &mut ds);
        assert(ds@ =~= descendants(v, self.target));
        proof { lemma_all_descendants_valid(v, self.target); }
        let label = "label".to_string();
        let mut i: usize = 0;
        while i < ds.len()
            invariant
                doc@ == v,
                v.wf(),
                ds@ == descendants(v, self.target),
                forall|k: int| 0 <= k < ds@.len() ==> v.valid(#[trigger] ds@[k]),
                i <= ds@.len(),
                label@ == "label"@,
                forall|j: int| 0 <= j < i ==> !is_label_for(v, id@, ds@[j]),
            decreases ds@.len() - i,
        {
            let x = ds[i];
            assert(v.valid(ds@[i as int]));
            let is_label = match doc.data(x) {
                VirtData::Elem { tag, .. } => *tag == label,
                VirtData::Text(_) => false,
            };
            if is_label {
                let f = doc.get_attribute(x, "for");
                let hit = match f {
                    Some(value) => value == *id,
                    None => false,
                };
                if hit {
                    proof {
                        assert(is_first_label(v, ds@, id@, i as int));
                        let k = choose|k: int| is_first_label(v, ds@, id@, k);
                        if k < i {
                            assert(!is_label_for(v, id@, ds@[k]));
                        } else if i < k {
                            assert(!is_label_for(v, id@, ds@[i as int]));
                        }
                    }
                    return Some(x);
                }
            }
            i = i + 1;
        }
        assert forall|k: int| !is_first_label(v, ds@, id@, k) by {
            if 0 <= k < ds@.len() {
                assert(!is_label_for(v, id@, ds@[k]));
            }
        }
        None
    }

    /// The text of `node` that this query examines.
    fn query_text(&self, doc: &VirtDocument, node: NodeId) -> (r: Option<String>)
        requires
            doc.wf(),
            doc@.valid(self.target),
            doc@.valid(node),
        ensures
            match r {
                Some(t) => query_text(doc@, self.strat, self.target, node) == Some(t@),
                None => query_text(doc@, self.strat, self.target, node) is None,
            },
    {
        match self.strat {
            Strategy::Text => Some(doc.get_inner_text(node)),
            Strategy::LabelText => match doc.get_attribute(node, "id") {
                Some(id) => match self.label_for(doc, &id) {
                    Some(l) => {
                        proof {
                            let ds = descendants(doc@, self.target);
                            lemma_all_descendants_valid(doc@, self.target);
                            let k = choose|k: int| is_first_label(doc@, ds, id@, k);
                            assert(doc@.valid(ds[k]));
                        }
                        Some(doc.get_inner_text(l))
                    },
                    None => None,
                },
                None => None,
            },
            Strategy::AltText => doc.get_attribute(node, "alt"),
            Strategy::Title => doc.get_attribute(node, "title"),
            Strategy::DisplayValue => doc.get_attribute(node, "value"),
            Strategy::PlaceholderText => doc.get_attribute(node, "placeholder"),
            Strategy::Role => doc.get_attribute(node, "role"),
            Strategy::TestId => doc.get_attribute(node, "data-testid"),
        }
    }

    /// Whether `node` is a `title` element inside an `svg` element.
    fn is_svg_title(doc: &VirtDocument, node: NodeId) -> (r: bool)
        requires
            doc.wf(),
            doc@.valid(node),
        ensures
            r == is_svg_title(doc@, node),
    {
        let title = "title".to_string();
        let is_title = match doc.data(node) {
            VirtData::Elem { tag, .. } => *tag == title,
            VirtData::Text(_) => false,
        };
        if !is_title {
            return false;
        }
        match doc.parent(node) {
            Some(p) => {
                let svg = "svg".to_string();
                match doc.data(p) {
                    VirtData::Elem { tag, .. } => *tag == svg,
                    VirtData::Text(_) => false,
                }
            },
            None => false,
        }
    }

    /// The second text of `node` that this query examines.
    fn other_query_text(&self, doc: &VirtDocument, node: NodeId) -> (r: Option<String>)
        requires
            doc.wf(),
            doc@.valid(node),
        ensures
            match r {
                Some(t) => other_query_text(doc@, self.strat, node) == Some(t@),
                None => other_query_text(doc@, self.strat, node) is None,
            },
    {
        match self.strat {
            Strategy::LabelText => doc.get_attribute(node, "aria-label"),
            Strategy::Title => if Self::is_svg_title(doc, node) {
                Some(doc.get_inner_text(node))
            } else {
                None
            },
            _ => None,
        }
    }

    /// Whether `node` matches this query.
    pub fn matches(&self, doc: &VirtDocument, node: NodeId) -> (r: bool)
        requires
            doc.wf(),
            doc@.valid(self.target()),
            doc@.valid(node),
        ensures
            r == query_matches(doc@, self.strategy(), self.target(), self.pattern(), node),
    {
        let first = match self.query_text(doc, node) {
            Some(t) => {
                let text = normalize_whitespace(t.as_str());
                text == self.pattern
            },
            None => false,
        };
        if first {
            return true;
        }
        match self.other_query_text(doc, node) {
            Some(t) => {
                let text = normalize_whitespace(t.as_str());
                text == self.pattern
            },
            None => false,
        }
    }

    /// Execute the query and return a `Vec` of matching nodes in the queried
    /// subtree.
    pub fn many(&self, doc: &VirtDocument) -> (r: Vec<NodeId>)
        requires
            doc.wf(),
            doc@.valid(self.target()),
        ensures
            r@ == query_all(doc@, self.strategy(), self.target(), self.pattern()),
            r@.no_duplicates(),
            forall|x: NodeId| #[trigger] r@.contains(x) <==> (doc@.contains(self.target(), x) && x != self.target()
                && query_matches(doc@, self.strategy(), self.target(), self.pattern(), x)),
    {
        proof { law_query_all_each_once(doc@, self.strat, self.target, self.pattern@); }
        let ghost v = doc@;
        let ghost pred = |x: NodeId| query_matches(v, self.strat, self.target, self.pattern@, x);
        let mut candidates: Vec<NodeId> = Vec::new();
        doc.collect_children_dfs_preorder(self.target, &mut candidates);
        assert(candidates@ =~= descendants(v, self.target));
        proof { lemma_all_descendants_valid(v, self.target); }
        let mut kept: Vec<NodeId> = Vec::new();
        let mut i: usize = 0;
        assert(candidates@.take(0).filter(pred) =~= Seq::<NodeId>::empty()) by {
            reveal(Seq::filter);
        }
        while i < candidates.len()
            invariant
                doc@ == v,
                v.wf(),
                v.valid(self.target),
                candidates@ == descendants(v, self.target),
                forall|k: int| 0 <= k < candidates@.len() ==> v.valid(#[trigger] candidates@[k]),
                i <= candidates@.len(),
                pred == (|x: NodeId| query_matches(v, self.strat, self.target, self.pattern@, x)),
                kept@ == candidates@.take(i as int).filter(pred),
            decreases candidates@.len() - i,
        {
            let x = candidates[i];
            assert(v.valid(candidates@[i as int]));
            assert(candidates@.take(i as int + 1) =~= candidates@.take(i as int).push(x));
            proof { candidates@.take(i as int).lemma_filter_push(x, pred); }
            if self.matches(doc, x) {
                kept.push(x);
            }
            i = i + 1;
        }
        assert(candidates@.take(candidates@.len() as int) =~= candidates@);
        kept
    }

    /// Execute the query and return the only matching node in the queried
    /// subtree, or `Missing` when none matches.
    ///
    /// More than one matching node is not allowed: a query that can match
    /// several nodes is run with [`Found::many`], or through [`only_match`]
    /// on its results, which reports the extra nodes.
    pub fn one(&self, doc: &VirtDocument) -> (r: Result<NodeId, QueryError>)
        requires
            doc.wf(),
            doc@.valid(self.target()),
            query_all(doc@, self.strategy(), self.target(), self.pattern()).len() <= 1,
        ensures
            ({
                let all = query_all(doc@, self.strategy(), self.target(), self.pattern());
                match r {
                    Ok(n) => all.len() == 1 && n == all[0],
                    Err(QueryError::Missing) => all.len() == 0,
                    Err(QueryError::TooMany { .. }) => false,
                }
            }),
    {
        let matches = self.many(doc);
        if matches.len() == 0 {
            Err(QueryError::Missing)
        } else {
            Ok(matches[0])
        }
    }
}

/// The only node of `matches`, or the error that says why there is not
/// exactly one: none at all, or the first one followed by the rest.
pub fn only_match(matches: Vec<NodeId>) -> (r: Result<NodeId, QueryError>)
    ensures
        match r {
            Ok(n) => matches@.len() == 1 && n == matches@[0],
            Err(QueryError::Missing) => matches@.len() == 0,
            Err(QueryError::TooMany { matched, extra }) => matches@.len() > 1 && matched == matches@[0]
                && extra@ == matches@.subrange(1, matches@.len() as int),
        },
{
    let mut matches = matches;
    if matches.len() == 0 {
        Err(QueryError::Missing)
    } else {
        let extra = matches.split_off(1);
        let matched = matches[0];
        if extra.len() == 0 {
            Ok(matched)
        } else {
            Err(QueryError::TooMany { matched, extra })
        }
    }
}


/// What a query that waits for the DOM to change does next.
#[derive(Debug)]
pub enum UntilStep {
    /// The wait is over, with these results (empty when the time ran out).
    Done(Vec<NodeId>),
    /// Nothing matches yet: wait for the next mutation or the timeout.
    Wait,
}

impl Found {
    /// One attempt of a waiting query: the current results when there are
    /// any; otherwise no results once the timeout has expired, or another
    /// wait before it has.
    pub fn until_step(&self, doc: &VirtDocument, timed_out: bool) -> (r: UntilStep)
        requires
            doc.wf(),
            doc@.valid(self.target()),
        ensures
            ({
                let all = query_all(doc@, self.strategy(), self.target(), self.pattern());
                match r {
                    UntilStep::Done(v) => if all.len() > 0 { v@ == all } else { timed_out && v@.len() == 0 },
                    UntilStep::Wait => all.len() == 0 && !timed_out,
                }
            }),
    {
        let current = self.many(doc);
        if current.len() > 0 {
            UntilStep::Done(current)
        } else if timed_out {
            UntilStep::Done(Vec::new())
        } else {
            UntilStep::Wait
        }
    }
}

} // verus!
