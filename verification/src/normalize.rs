//! Whitespace normalization of text, as the DOM queries compare it.

use vstd::prelude::*;
use vstd::string::*;

verus! {

/// The characters with Unicode's `White_Space` property.
pub open spec fn is_white_space(c: char) -> bool {
    let u = c as u32;
    ||| 0x9 <= u <= 0xD
    ||| u == 0x20
    ||| u == 0x85
    ||| u == 0xA0
    ||| u == 0x1680
    ||| 0x2000 <= u <= 0x200A
    ||| u == 0x2028
    ||| u == 0x2029
    ||| u == 0x202F
    ||| u == 0x205F
    ||| u == 0x3000
}

/// `char::is_whitespace`: whether the character has the `White_Space`
/// property.
#[verifier::external_body]
fn char_is_whitespace(c: char) -> (r: bool)
    ensures
        r == is_white_space(c),
{
    c.is_whitespace()
}

/// `String::push`: appends one character.
#[verifier::external_body]
pub(crate) fn string_push(s: &mut String, c: char)
    ensures
        final(s)@ == old(s)@.push(c),
{
    s.push(c)
}

/// Normalizing a text from left to right: the text so far, and whether a
/// separating space is owed before the next non-whitespace character.
pub open spec fn normalize_state(s: Seq<char>) -> (Seq<char>, bool)
    decreases s.len(),
{
    if s.len() == 0 {
        (Seq::empty(), false)
    } else {
        let (r, pending) = normalize_state(s.drop_last());
        let c = s.last();
        if is_white_space(c) {
            (r, r.len() > 0)
        } else if pending {
            (r.push(' ').push(c), false)
        } else {
            (r.push(c), false)
        }
    }
}

/// The words of `s` (its maximal runs of non-whitespace characters) joined by
/// single spaces: leading and trailing whitespace is dropped and every inner
/// run of whitespace becomes one space.
pub open spec fn normalize(s: Seq<char>) -> Seq<char> {
    normalize_state(s).0
}


/// `t` is already normalized: it neither starts nor ends with whitespace, its
/// only whitespace is the plain space, and no two spaces are adjacent.
pub open spec fn is_normalized(t: Seq<char>) -> bool {
    &&& t.len() > 0 ==> !is_white_space(t[0]) && !is_white_space(t.last())
    &&& forall|i: int| 0 <= i < t.len() && is_white_space(#[trigger] t[i]) ==> t[i] == ' '
    &&& forall|i: int| 0 <= i < t.len() - 1 && #[trigger] t[i] == ' ' ==> t[i + 1] != ' '
}

proof fn lemma_normalize_state_clean(s: Seq<char>)
    ensures
        is_normalized(normalize_state(s).0),
        normalize_state(s).1 ==> normalize_state(s).0.len() > 0,
    decreases s.len(),
{
    if s.len() > 0 {
        lemma_normalize_state_clean(s.drop_last());
        let (r, pending) = normalize_state(s.drop_last());
        let c = s.last();
        if !is_white_space(c) {
            if pending {
                let t = r.push(' ').push(c);
                assert(t[t.len() - 2] == ' ');
                assert(t[t.len() - 1] == c);
                assert forall|i: int| 0 <= i < t.len() && is_white_space(#[trigger] t[i]) implies t[i] == ' ' by {
                    if i < r.len() {
                        assert(t[i] == r[i]);
                    }
                }
                assert forall|i: int| 0 <= i < t.len() - 1 && #[trigger] t[i] == ' ' implies t[i + 1] != ' ' by {
                    if i < r.len() - 1 {
                        assert(t[i] == r[i]);
                        assert(t[i + 1] == r[i + 1]);
                    } else if i == r.len() - 1 {
                        assert(t[i] == r.last());
                    }
                }
                assert(t[0] == r[0]);
            } else {
                let t = r.push(c);
                assert forall|i: int| 0 <= i < t.len() && is_white_space(#[trigger] t[i]) implies t[i] == ' ' by {
                    if i < r.len() {
                        assert(t[i] == r[i]);
                    }
                }
                assert forall|i: int| 0 <= i < t.len() - 1 && #[trigger] t[i] == ' ' implies t[i + 1] != ' ' by {
                    assert(t[i] == r[i]);
                    if i < r.len() - 1 {
                        assert(t[i + 1] == r[i + 1]);
                    }
                }
                if r.len() > 0 {
                    assert(t[0] == r[0]);
                }
            }
        }
    }
}

/// Removes one trailing space.
pub open spec fn strip_space(p: Seq<char>) -> Seq<char> {
    if p.len() > 0 && p.last() == ' ' { p.drop_last() } else { p }
}

proof fn lemma_normalize_prefix(t: Seq<char>, k: int)
    requires
        is_normalized(t),
        0 <= k <= t.len(),
    ensures
        normalize_state(t.take(k)) == (strip_space(t.take(k)), k > 0 && t[k - 1] == ' '),
    decreases k,
{
    let p = t.take(k);
    if k > 0 {
        lemma_normalize_prefix(t, k - 1);
        let q = t.take(k - 1);
        assert(p.drop_last() =~= q);
        assert(p.last() == t[k - 1]);
        let c = t[k - 1];
        if is_white_space(c) {
            assert(c == ' ');
            assert(k - 1 > 0) by {
                if k - 1 == 0 {
                    assert(t[0] == c);
                }
            }
            assert(t[k - 2] != ' ');
            assert(q.last() == t[k - 2]);
            assert(strip_space(q) == q);
            assert(strip_space(p) == q);
        } else {
            if k - 1 > 0 && t[k - 2] == ' ' {
                assert(q.last() == ' ');
                assert(strip_space(q).push(' ').push(c) =~= p);
            } else {
                if k - 1 > 0 {
                    assert(q.last() == t[k - 2]);
                }
                assert(strip_space(q).push(c) =~= p);
            }
        }
    } else {
        assert(p =~= Seq::<char>::empty());
    }
}

/// Normalizing is idempotent: a normalized text normalizes to itself.
pub proof fn lemma_normalize_idempotent(s: Seq<char>)
    ensures
        is_normalized(normalize(s)),
        normalize(normalize(s)) == normalize(s),
{
    lemma_normalize_state_clean(s);
    let t = normalize(s);
    lemma_normalize_prefix(t, t.len() as int);
    assert(t.take(t.len() as int) =~= t);
    if t.len() > 0 {
        assert(t.last() != ' ');
    }
}

/// The words of `s`: its maximal runs of non-whitespace characters, in
/// order.
pub open spec fn words(s: Seq<char>) -> Seq<Seq<char>>
    decreases s.len(),
{
    if s.len() == 0 {
        Seq::empty()
    } else {
        let w = words(s.drop_last());
        let c = s.last();
        if is_white_space(c) {
            w
        } else if s.len() >= 2 && !is_white_space(s[s.len() - 2]) {
            w.drop_last().push(w.last().push(c))
        } else {
            w.push(seq![c])
        }
    }
}

/// The words joined by single spaces.
pub open spec fn join_words(ws: Seq<Seq<char>>) -> Seq<char>
    decreases ws.len(),
{
    if ws.len() == 0 {
        Seq::empty()
    } else if ws.len() == 1 {
        ws[0]
    } else {
        join_words(ws.drop_last()) + seq![' '] + ws.last()
    }
}

proof fn lemma_join_nonempty(ws: Seq<Seq<char>>)
    requires
        forall|k: int| 0 <= k < ws.len() ==> (#[trigger] ws[k]).len() > 0,
    ensures
        (join_words(ws).len() > 0) == (ws.len() > 0),
    decreases ws.len(),
{
    if ws.len() > 1 {
        lemma_join_nonempty(ws.drop_last());
    }
}

proof fn lemma_normalize_words(s: Seq<char>)
    ensures
        normalize_state(s).0 == join_words(words(s)),
        normalize_state(s).1 == (s.len() > 0 && is_white_space(s.last()) && words(s).len() > 0),
        s.len() > 0 && !is_white_space(s.last()) ==> words(s).len() > 0,
        forall|k: int| 0 <= k < words(s).len() ==> (#[trigger] words(s)[k]).len() > 0
            && forall|m: int| 0 <= m < words(s)[k].len() ==> !is_white_space(words(s)[k][m]),
    decreases s.len(),
{
    if s.len() > 0 {
        let t = s.drop_last();
        let c = s.last();
        lemma_normalize_words(t);
        let w = words(t);
        let (r, pending) = normalize_state(t);
        lemma_join_nonempty(w);
        if is_white_space(c) {
        } else if s.len() >= 2 && !is_white_space(s[s.len() - 2]) {
            assert(t.last() == s[s.len() - 2]);
            let x = w.last();
            let w2 = w.drop_last().push(x.push(c));
            assert(w2.drop_last() =~= w.drop_last());
            if w.len() == 1 {
                assert(join_words(w2) == x.push(c));
            } else {
                assert(join_words(w) == join_words(w.drop_last()) + seq![' '] + x);
                assert(join_words(w2) =~= join_words(w).push(c));
            }
            assert(r.push(c) =~= join_words(w2));
            assert forall|k: int| 0 <= k < w2.len() implies (#[trigger] w2[k]).len() > 0
                && forall|m: int| 0 <= m < w2[k].len() ==> !is_white_space(w2[k][m]) by {
                if k < w2.len() - 1 {
                    assert(w2[k] == w[k]);
                } else {
                    assert(w2[k] == x.push(c));
                    assert(w[w.len() - 1] == x);
                }
            }
        } else {
            let w2 = w.push(seq![c]);
            assert(w2.drop_last() =~= w);
            if t.len() > 0 {
                assert(t.last() == s[s.len() - 2]);
            }
            if pending {
                assert(w.len() > 0);
                if w.len() == 0 {
                } else {
                    assert(join_words(w2) =~= r.push(' ').push(c));
                }
            } else {
                assert(w.len() == 0);
                assert(join_words(w2) =~= r.push(c));
            }
            assert forall|k: int| 0 <= k < w2.len() implies (#[trigger] w2[k]).len() > 0
                && forall|m: int| 0 <= m < w2[k].len() ==> !is_white_space(w2[k][m]) by {
                if k < w2.len() - 1 {
                    assert(w2[k] == w[k]);
                }
            }
        }
    }
}

/// Normalizing keeps the words: the normalized text is the words of the
/// text (its maximal runs of non-whitespace characters, each non-empty and
/// free of whitespace) joined by single spaces, whatever whitespace
/// separated them.
pub proof fn law_normalize_joins_words(s: Seq<char>)
    ensures
        normalize(s) == join_words(words(s)),
        forall|k: int| 0 <= k < words(s).len() ==> (#[trigger] words(s)[k]).len() > 0
            && forall|m: int| 0 <= m < words(s)[k].len() ==> !is_white_space(words(s)[k][m]),
{
    lemma_normalize_words(s);
}

/// Splits `s` at whitespace and joins the pieces with single spaces.
pub fn normalize_whitespace(s: &str) -> (r: String)
    ensures
        r@ == normalize(s@),
{
    let mut out = String::new();
    let mut pending = false;
    let mut has_word = false;
    let ghost all = s@;
    assert(all.take(0) =~= Seq::<char>::empty());
    for c in it: s.chars()
        invariant
            all == s@,
            it.seq() == all,
            (out@, pending) == normalize_state(all.take(it.index() as int)),
            has_word == (out@.len() > 0),
    {
        let ghost i = it.index() as int;
        assert(all.take(i + 1).drop_last() =~= all.take(i));
        assert(all.take(i + 1).last() == c);
        if char_is_whitespace(c) {
            if has_word {
                pending = true;
            }
        } else {
            if pending {
                string_push(&mut out, ' ');
                pending = false;
            }
            string_push(&mut out, c);
            has_word = true;
        }
    }
    assert(all.take(all.len() as int) =~= all);
    out
}

} // verus!
