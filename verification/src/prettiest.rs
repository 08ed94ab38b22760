//! Pretty printing of JavaScript values: a value, read into a graph of
//! [`JsNode`]s (one node per JavaScript object, so that a shared or cyclic
//! object is one index), is printed the way Rust's `Debug` prints lists, sets,
//! maps and structs, with `[Cycle]` in place of an object already being
//! printed further up.

use vstd::prelude::*;
use vstd::set_lib::*;
use vstd::string::*;

verus! {

/// A property of an object: a function, or a value (by its node).
#[derive(Clone, Copy, Debug, PartialEq, Eq, Structural)]
pub enum PropValue {
    Function,
    Value(usize),
}

/// One JavaScript value, with the values it holds given by their index in
/// the graph.
#[derive(Debug)]
pub enum JsNode {
    Null,
    Undefined,
    Function,
    Promise,
    Document,
    Window,
    /// A string.
    Str(String),
    /// A number, as Rust's `Display` writes the float.
    Number(String),
    Bool(bool),
    /// A date, in ISO format.
    Date(String),
    /// An element: its tag name, `id` and class name.
    Element { tag: String, id: String, class: String },
    /// An error, by its message.
    Error(String),
    /// A regular expression, as JavaScript writes it.
    RegExp(String),
    /// A symbol, as JavaScript writes it.
    Symbol(String),
    Array(Vec<usize>),
    JsSet(Vec<usize>),
    /// The entries of a map, key and value.
    JsMap(Vec<(usize, usize)>),
    /// An object: the name of its constructor, and for each level of its
    /// prototype chain (the object itself first, up to but not including
    /// `Object`'s prototype) the own property names of that level, in the
    /// engine's order, with the value that the object has under each name.
    Object { constructor: String, levels: Vec<Vec<(String, PropValue)>> },
    /// Any other value, as `JsValue`'s `Debug` writes it.
    Unknown(String),
}

/// The abstract content of a [`JsNode`].
pub enum JsView {
    Null,
    Undefined,
    Function,
    Promise,
    Document,
    Window,
    Str(Seq<char>),
    Number(Seq<char>),
    Bool(bool),
    Date(Seq<char>),
    Element { tag: Seq<char>, id: Seq<char>, class: Seq<char> },
    Error(Seq<char>),
    RegExp(Seq<char>),
    Symbol(Seq<char>),
    Array(Seq<usize>),
    JsSet(Seq<usize>),
    JsMap(Seq<(usize, usize)>),
    Object { constructor: Seq<char>, levels: Seq<Seq<(Seq<char>, PropValue)>> },
    Unknown(Seq<char>),
}

pub open spec fn level_view(l: Vec<(String, PropValue)>) -> Seq<(Seq<char>, PropValue)> {
    l@.map_values(|e: (String, PropValue)| (e.0@, e.1))
}

impl View for JsNode {
    type V = JsView;

    open spec fn view(&self) -> JsView {
        match self {
            JsNode::Null => JsView::Null,
            JsNode::Undefined => JsView::Undefined,
            JsNode::Function => JsView::Function,
            JsNode::Promise => JsView::Promise,
            JsNode::Document => JsView::Document,
            JsNode::Window => JsView::Window,
            JsNode::Str(s) => JsView::Str(s@),
            JsNode::Number(s) => JsView::Number(s@),
            JsNode::Bool(b) => JsView::Bool(*b),
            JsNode::Date(s) => JsView::Date(s@),
            JsNode::Element { tag, id, class } => JsView::Element { tag: tag@, id: id@, class: class@ },
            JsNode::Error(s) => JsView::Error(s@),
            JsNode::RegExp(s) => JsView::RegExp(s@),
            JsNode::Symbol(s) => JsView::Symbol(s@),
            JsNode::Array(v) => JsView::Array(v@),
            JsNode::JsSet(v) => JsView::JsSet(v@),
            JsNode::JsMap(v) => JsView::JsMap(v@),
            JsNode::Object { constructor, levels } => JsView::Object {
                constructor: constructor@,
                levels: levels@.map_values(|l: Vec<(String, PropValue)>| level_view(l)),
            },
            JsNode::Unknown(s) => JsView::Unknown(s@),
        }
    }
}

pub open spec fn graph_view(g: Seq<JsNode>) -> Seq<JsView> {
    g.map_values(|n: JsNode| n@)
}

/// How Rust's `Debug` writes a string: quoted, with escapes.
pub uninterp spec fn debug_escaped(s: Seq<char>) -> Seq<char>;

/// `format!("{:?}", s)`: the string as `Debug` writes it.
#[verifier::external_body]
fn debug_str(s: &str) -> (r: String)
    ensures
        r@ == debug_escaped(s@),
{
    format!("{:?}", s)
}

/// `s` with the ASCII capitals lowered.
pub open spec fn ascii_lower(s: Seq<char>) -> Seq<char> {
    s.map_values(|c: char| if 'A' <= c <= 'Z' { ((c as u32) + 32) as char } else { c })
}

/// `str::to_ascii_lowercase`: the ASCII letters `A` to `Z` lowered, every
/// other character kept.
#[verifier::external_body]
fn to_ascii_lowercase(s: &str) -> (r: String)
    ensures
        r@ == ascii_lower(s@),
{
    s.to_ascii_lowercase()
}

/// `x` comes before `y` in the order of Rust's `String` comparison (by code
/// point, a prefix first).
pub open spec fn name_less(x: Seq<char>, y: Seq<char>) -> bool
    decreases x.len(),
{
    if x.len() == 0 {
        y.len() > 0
    } else if y.len() == 0 {
        false
    } else if x[0] != y[0] {
        (x[0] as u32) < (y[0] as u32)
    } else {
        name_less(x.drop_first(), y.drop_first())
    }
}

/// `s` with `e` put before the first entry whose name comes after `e`'s.
pub open spec fn insert_sorted(s: Seq<(Seq<char>, PropValue)>, e: (Seq<char>, PropValue)) -> Seq<(Seq<char>, PropValue)>
    decreases s.len(),
{
    if s.len() == 0 {
        seq![e]
    } else if name_less(e.0, s[0].0) {
        seq![e] + s
    } else {
        seq![s[0]] + insert_sorted(s.drop_first(), e)
    }
}

/// The entries of `s` ordered by name, entries with equal names in their
/// order in `s`.
pub open spec fn sort_by_name(s: Seq<(Seq<char>, PropValue)>) -> Seq<(Seq<char>, PropValue)>
    decreases s.len(),
{
    if s.len() == 0 {
        s
    } else {
        insert_sorted(sort_by_name(s.drop_last()), s.last())
    }
}

/// `__x__` names, which are not shown.
pub open spec fn is_dunder(k: Seq<char>) -> bool {
    &&& k.len() >= 2
    &&& k[0] == '_' && k[1] == '_'
    &&& k[k.len() - 2] == '_' && k[k.len() - 1] == '_'
}

/// Whether a property named `k` is shown, given the names already shown.
pub open spec fn shown(k: Seq<char>, skip: Seq<Seq<char>>, seen: Seq<Seq<char>>) -> bool {
    !is_dunder(k) && !skip.contains(k) && !seen.contains(k)
}

/// Going through the properties of one level from `j` on: the shown values
/// and functions, in order, and the names shown so far.
pub open spec fn keep_from(
    level: Seq<(Seq<char>, PropValue)>,
    j: nat,
    skip: Seq<Seq<char>>,
    seen: Seq<Seq<char>>,
    values: Seq<(Seq<char>, PropValue)>,
    functions: Seq<(Seq<char>, PropValue)>,
) -> (Seq<(Seq<char>, PropValue)>, Seq<(Seq<char>, PropValue)>, Seq<Seq<char>>)
    decreases level.len() - j,
{
    if j < level.len() {
        let e = level[j as int];
        if !shown(e.0, skip, seen) {
            keep_from(level, j + 1, skip, seen, values, functions)
        } else if e.1 is Function {
            keep_from(level, j + 1, skip, seen.push(e.0), values, functions.push(e))
        } else {
            keep_from(level, j + 1, skip, seen.push(e.0), values.push(e), functions)
        }
    } else {
        (values, functions, seen)
    }
}

/// The fields shown for the prototype levels from `i` on: for each level its
/// values sorted by name, then its functions sorted by name.
pub open spec fn object_fields(
    levels: Seq<Seq<(Seq<char>, PropValue)>>,
    i: nat,
    skip: Seq<Seq<char>>,
    seen: Seq<Seq<char>>,
) -> Seq<(Seq<char>, PropValue)>
    decreases levels.len() - i,
{
    if i < levels.len() {
        let (values, functions, seen2) = keep_from(levels[i as int], 0, skip, seen, Seq::empty(), Seq::empty());
        sort_by_name(values) + sort_by_name(functions) + object_fields(levels, i + 1, skip, seen2)
    } else {
        Seq::empty()
    }
}

/// `Debug`'s indentation of nested output in its alternate form: four
/// spaces before each line.
pub open spec fn pad(s: Seq<char>) -> Seq<char>
    decreases s.len(),
{
    if s.len() == 0 {
        s
    } else {
        let starts_line = s.len() == 1 || s[s.len() - 2] == '\n';
        pad(s.drop_last()) + (if starts_line { "    "@ } else { Seq::empty() }) + seq![s.last()]
    }
}

/// The entries, each followed by `,` and a line break.
pub open spec fn lines(es: Seq<Seq<char>>) -> Seq<char>
    decreases es.len(),
{
    if es.len() == 0 {
        Seq::empty()
    } else {
        lines(es.drop_last()) + es.last() + ",\n"@
    }
}

/// The entries separated by `, `.
pub open spec fn join(es: Seq<Seq<char>>) -> Seq<char>
    decreases es.len(),
{
    if es.len() == 0 {
        Seq::empty()
    } else if es.len() == 1 {
        es[0]
    } else {
        join(es.drop_last()) + ", "@ + es.last()
    }
}

/// A list, set or map as `Debug` writes it between `open` and `close`.
pub open spec fn bracketed(open: Seq<char>, close: Seq<char>, es: Seq<Seq<char>>, alt: bool) -> Seq<char> {
    if !alt {
        open + join(es) + close
    } else if es.len() == 0 {
        open + close
    } else {
        open + "\n"@ + pad(lines(es)) + close
    }
}

/// A struct as `Debug` writes it.
pub open spec fn structure(name: Seq<char>, es: Seq<Seq<char>>, alt: bool) -> Seq<char> {
    if es.len() == 0 {
        name
    } else if !alt {
        name + " { "@ + join(es) + " }"@
    } else {
        name + " {\n"@ + pad(lines(es)) + "}"@
    }
}

pub open spec fn within(g: Seq<JsView>, path: Set<int>) -> bool {
    path.finite() && path.subset_of(set_int_range(0, g.len() as int))
}

/// How node `i` of `g` prints, the nodes of `path` being printed further up
/// (`alt`: `Debug`'s alternate form, one entry per line).
pub open spec fn pretty_spec(g: Seq<JsView>, i: int, skip: Seq<Seq<char>>, path: Set<int>, alt: bool) -> Seq<char>
    decreases g.len() - path.len(), 0nat,
    when within(g, path)
{
    if !(0 <= i < g.len()) {
        Seq::empty()
    } else if path.contains(i) {
        "[Cycle]"@
    } else {
        let inner = path.insert(i);
        proof {
            lemma_int_range(0, g.len() as int);
            assert(inner.subset_of(set_int_range(0, g.len() as int)));
            lemma_len_subset(inner, set_int_range(0, g.len() as int));
        }
        match g[i] {
            JsView::Null => "null"@,
            JsView::Undefined => "undefined"@,
            JsView::Function => "[Function]"@,
            JsView::Promise => "[Promise]"@,
            JsView::Document => "[Document]"@,
            JsView::Window => "[Window]"@,
            JsView::Str(s) => debug_escaped(s),
            JsView::Number(n) => n,
            JsView::Bool(b) => if b { "true"@ } else { "false"@ },
            JsView::Date(d) => d,
            JsView::Element { tag, id, class } => "<"@ + ascii_lower(tag)
                + (if id.len() == 0 { Seq::empty() } else { " #"@ + id })
                + (if class.len() == 0 { Seq::empty() } else { " ."@ + class }) + "/>"@,
            JsView::Error(m) => "Error: "@ + m,
            JsView::RegExp(r) => "/"@ + r + "/"@,
            JsView::Symbol(s) => s,
            JsView::Array(items) => bracketed("["@, "]"@, pretty_items(g, items, 0, skip, inner, alt), alt),
            JsView::JsSet(items) => bracketed("{"@, "}"@, pretty_items(g, items, 0, skip, inner, alt), alt),
            JsView::JsMap(pairs) => bracketed("{"@, "}"@, pretty_pairs(g, pairs, 0, skip, inner, alt), alt),
            JsView::Object { constructor, levels } => structure(
                constructor,
                pretty_fields(g, object_fields(levels, 0, skip, Seq::empty()), 0, skip, inner, alt),
                alt,
            ),
            JsView::Unknown(s) => "unknown ("@ + s + ")"@,
        }
    }
}

/// How the nodes `items[j..]` print.
pub open spec fn pretty_items(g: Seq<JsView>, items: Seq<usize>, j: nat, skip: Seq<Seq<char>>, path: Set<int>, alt: bool) -> Seq<Seq<char>>
    decreases g.len() - path.len(), items.len() - j,
    when within(g, path)
{
    if j < items.len() {
        seq![pretty_spec(g, items[j as int] as int, skip, path, alt)] + pretty_items(g, items, j + 1, skip, path, alt)
    } else {
        Seq::empty()
    }
}

/// How the map entries `pairs[j..]` print.
pub open spec fn pretty_pairs(g: Seq<JsView>, pairs: Seq<(usize, usize)>, j: nat, skip: Seq<Seq<char>>, path: Set<int>, alt: bool) -> Seq<Seq<char>>
    decreases g.len() - path.len(), pairs.len() - j,
    when within(g, path)
{
    if j < pairs.len() {
        seq![pretty_spec(g, pairs[j as int].0 as int, skip, path, alt) + ": "@
            + pretty_spec(g, pairs[j as int].1 as int, skip, path, alt)]
            + pretty_pairs(g, pairs, j + 1, skip, path, alt)
    } else {
        Seq::empty()
    }
}

/// How the fields `fields[j..]` of an object print.
pub open spec fn pretty_fields(g: Seq<JsView>, fields: Seq<(Seq<char>, PropValue)>, j: nat, skip: Seq<Seq<char>>, path: Set<int>, alt: bool) -> Seq<Seq<char>>
    decreases g.len() - path.len(), fields.len() - j,
    when within(g, path)
{
    if j < fields.len() {
        let value = match fields[j as int].1 {
            PropValue::Function => "[Function]"@,
            PropValue::Value(k) => pretty_spec(g, k as int, skip, path, alt),
        };
        seq![fields[j as int].0 + ": "@ + value] + pretty_fields(g, fields, j + 1, skip, path, alt)
    } else {
        Seq::empty()
    }
}

/// The characters of `s`.
fn chars_of(s: &str) -> (r: Vec<char>)
    ensures
        r@ == s@,
{
    let mut out: Vec<char> = Vec::new();
    let ghost all = s@;
    for c in it: s.chars()
        invariant
            all == s@,
            it.seq() == all,
            out@ == all.take(it.index() as int),
    {
        let ghost i = it.index() as int;
        assert(all.take(i + 1) =~= all.take(i).push(c));
        out.push(c);
    }
    assert(all.take(all.len() as int) =~= all);
    out
}

/// Whether `x` comes before `y` in `String`'s order.
fn name_less_exec(x: &String, y: &String) -> (r: bool)
    ensures
        r == name_less(x@, y@),
{
    let xs = chars_of(x.as_str());
    let ys = chars_of(y.as_str());
    let mut i: usize = 0;
    assert(x@.skip(0) =~= x@);
    assert(y@.skip(0) =~= y@);
    while i < xs.len() && i < ys.len() && xs[i] == ys[i]
        invariant
            xs@ == x@,
            ys@ == y@,
            i <= xs@.len(),
            i <= ys@.len(),
            name_less(x@, y@) == name_less(x@.skip(i as int), y@.skip(i as int)),
        decreases xs@.len() - i,
    {
        assert(x@.skip(i as int).drop_first() =~= x@.skip(i as int + 1));
        assert(y@.skip(i as int).drop_first() =~= y@.skip(i as int + 1));
        assert(x@.skip(i as int)[0] == xs@[i as int]);
        assert(y@.skip(i as int)[0] == ys@[i as int]);
        i = i + 1;
    }
    if i == xs.len() {
        assert(x@.skip(i as int).len() == 0);
        i < ys.len()
    } else if i == ys.len() {
        assert(y@.skip(i as int).len() == 0);
        false
    } else {
        assert(x@.skip(i as int)[0] == xs@[i as int]);
        assert(y@.skip(i as int)[0] == ys@[i as int]);
        (xs[i] as u32) < (ys[i] as u32)
    }
}

/// Inserting by name puts the entry at the first place whose entry comes
/// after it.
proof fn lemma_insert_at(s: Seq<(Seq<char>, PropValue)>, e: (Seq<char>, PropValue), p: int)
    requires
        0 <= p <= s.len(),
        forall|j: int| 0 <= j < p ==> !name_less(e.0, #[trigger] s[j].0),
        p == s.len() || name_less(e.0, s[p].0),
    ensures
        insert_sorted(s, e) == s.take(p) + seq![e] + s.skip(p),
    decreases s.len(),
{
    if s.len() == 0 {
        assert(s.take(p) + seq![e] + s.skip(p) =~= seq![e]);
    } else if p == 0 {
        assert(s.take(p) + seq![e] + s.skip(p) =~= seq![e] + s);
    } else {
        assert(!name_less(e.0, s[0].0));
        let t = s.drop_first();
        assert forall|j: int| 0 <= j < p - 1 implies !name_less(e.0, #[trigger] t[j].0) by {
            assert(t[j] == s[j + 1]);
        }
        if p < s.len() {
            assert(t[p - 1] == s[p]);
        }
        lemma_insert_at(t, e, p - 1);
        assert(seq![s[0]] + (t.take(p - 1) + seq![e] + t.skip(p - 1)) =~= s.take(p) + seq![e] + s.skip(p));
    }
}

/// Puts `e` into `v` before the first entry whose name comes after `e`'s.
fn insert_by_name(v: &mut Vec<(String, PropValue)>, e: (String, PropValue))
    ensures
        level_view(*final(v)) == insert_sorted(level_view(*old(v)), (e.0@, e.1)),
{
    let ghost s = level_view(*v);
    let mut p: usize = 0;
    while p < v.len() && !name_less_exec(&e.0, &v[p].0)
        invariant
            s == level_view(*v),
            p <= v@.len(),
            forall|j: int| 0 <= j < p ==> !name_less(e.0@, #[trigger] s[j].0),
        decreases v@.len() - p,
    {
        p = p + 1;
    }
    proof { lemma_insert_at(s, (e.0@, e.1), p as int); }
    v.insert(p, e);
    assert(level_view(*v) =~= s.take(p as int) + seq![(e.0@, e.1)] + s.skip(p as int));
}

/// The entries of `v` ordered by name (a stable insertion sort).
fn sort_entries(v: &Vec<(String, PropValue)>) -> (r: Vec<(String, PropValue)>)
    ensures
        level_view(r) == sort_by_name(level_view(*v)),
{
    let ghost s = level_view(*v);
    let mut out: Vec<(String, PropValue)> = Vec::new();
    let mut i: usize = 0;
    assert(s.take(0) =~= Seq::<(Seq<char>, PropValue)>::empty());
    while i < v.len()
        invariant
            s == level_view(*v),
            i <= v@.len(),
            level_view(out) == sort_by_name(s.take(i as int)),
        decreases v@.len() - i,
    {
        let e = (v[i].0.clone(), v[i].1);
        assert(s.take(i as int + 1).drop_last() =~= s.take(i as int));
        assert(s.take(i as int + 1).last() == (e.0@, e.1));
        insert_by_name(&mut out, e);
        i = i + 1;
    }
    assert(s.take(v@.len() as int) =~= s);
    out
}

pub open spec fn names_view(v: Seq<String>) -> Seq<Seq<char>> {
    v.map_values(|s: String| s@)
}

/// Whether `k` is a `__x__` name.
fn is_dunder_exec(k: &String) -> (r: bool)
    ensures
        r == is_dunder(k@),
{
    let cs = chars_of(k.as_str());
    let n = cs.len();
    n >= 2 && cs[0] == '_' && cs[1] == '_' && cs[n - 2] == '_' && cs[n - 1] == '_'
}

/// Whether `names` holds `k`.
fn has_name(names: &Vec<String>, k: &String) -> (r: bool)
    ensures
        r == names_view(names@).contains(k@),
{
    let ghost nv = names_view(names@);
    let mut i: usize = 0;
    while i < names.len()
        invariant
            nv == names_view(names@),
            i <= names@.len(),
            forall|j: int| 0 <= j < i ==> nv[j] != k@,
        decreases names@.len() - i,
    {
        if names[i] == *k {
            assert(nv[i as int] == k@);
            return true;
        }
        i = i + 1;
    }
    assert forall|j: int| 0 <= j < nv.len() implies nv[j] != k@ by {}
    false
}

/// The shown values and functions of one level, in order, adding their
/// names to `seen`.
fn keep_level(level: &Vec<(String, PropValue)>, skip: &Vec<String>, seen: &mut Vec<String>) -> (r: (Vec<(String, PropValue)>, Vec<(String, PropValue)>))
    ensures
        keep_from(level_view(*level), 0, names_view(skip@), names_view(old(seen)@), Seq::empty(), Seq::empty())
            == (level_view(r.0), level_view(r.1), names_view(final(seen)@)),
{
    let ghost lv = level_view(*level);
    let ghost sk = names_view(skip@);
    let ghost target = keep_from(lv, 0, sk, names_view(seen@), Seq::empty(), Seq::empty());
    let mut values: Vec<(String, PropValue)> = Vec::new();
    let mut functions: Vec<(String, PropValue)> = Vec::new();
    let mut j: usize = 0;
    assert(level_view(values) =~= Seq::<(Seq<char>, PropValue)>::empty());
    assert(level_view(functions) =~= Seq::<(Seq<char>, PropValue)>::empty());
    while j < level.len()
        invariant
            lv == level_view(*level),
            sk == names_view(skip@),
            j <= lv.len(),
            keep_from(lv, j as nat, sk, names_view(seen@), level_view(values), level_view(functions)) == target,
        decreases lv.len() - j,
    {
        let k = &level[j].0;
        let pv = level[j].1;
        assert(lv[j as int] == (k@, pv));
        let show = !is_dunder_exec(k) && !has_name(skip, k) && !has_name(seen, k);
        if show {
            let ghost sv = names_view(seen@);
            seen.push(k.clone());
            assert(names_view(seen@) =~= sv.push(k@));
            let ghost fv = level_view(functions);
            let ghost vv = level_view(values);
            match pv {
                PropValue::Function => {
                    functions.push((k.clone(), pv));
                    assert(level_view(functions) =~= fv.push((k@, pv)));
                },
                PropValue::Value(_) => {
                    values.push((k.clone(), pv));
                    assert(level_view(values) =~= vv.push((k@, pv)));
                },
            }
        }
        j = j + 1;
    }
    (values, functions)
}

pub open spec fn levels_view(levels: Seq<Vec<(String, PropValue)>>) -> Seq<Seq<(Seq<char>, PropValue)>> {
    levels.map_values(|l: Vec<(String, PropValue)>| level_view(l))
}

/// The fields that an object shows, in order.
fn object_fields_exec(levels: &Vec<Vec<(String, PropValue)>>, skip: &Vec<String>) -> (r: Vec<(String, PropValue)>)
    ensures
        level_view(r) == object_fields(levels_view(levels@), 0, names_view(skip@), Seq::empty()),
{
    let ghost ls = levels_view(levels@);
    let ghost sk = names_view(skip@);
    let ghost target = object_fields(ls, 0, sk, Seq::empty());
    let mut fields: Vec<(String, PropValue)> = Vec::new();
    let mut seen: Vec<String> = Vec::new();
    let mut i: usize = 0;
    assert(names_view(seen@) =~= Seq::<Seq<char>>::empty());
    assert(level_view(fields) =~= Seq::<(Seq<char>, PropValue)>::empty());
    while i < levels.len()
        invariant
            ls == levels_view(levels@),
            sk == names_view(skip@),
            i <= ls.len(),
            level_view(fields) + object_fields(ls, i as nat, sk, names_view(seen@)) == target,
        decreases ls.len() - i,
    {
        let ghost before = level_view(fields);
        let ghost seen0 = names_view(seen@);
        assert(ls[i as int] == level_view(levels[i as int]));
        let (values, functions) = keep_level(&levels[i], skip, &mut seen);
        let mut sv = sort_entries(&values);
        let mut sf = sort_entries(&functions);
        let ghost a = level_view(sv);
        let ghost b = level_view(sf);
        fields.append(&mut sv);
        assert(level_view(fields) =~= before + a);
        let ghost mid = level_view(fields);
        fields.append(&mut sf);
        assert(level_view(fields) =~= mid + b);
        assert(object_fields(ls, i as nat, sk, seen0)
            == a + b + object_fields(ls, i as nat + 1, sk, names_view(seen@)));
        assert(before + (a + b + object_fields(ls, i as nat + 1, sk, names_view(seen@)))
            =~= level_view(fields) + object_fields(ls, i as nat + 1, sk, names_view(seen@)));
        i = i + 1;
    }
    assert(object_fields(ls, i as nat, sk, names_view(seen@)) =~= Seq::<(Seq<char>, PropValue)>::empty());
    assert(level_view(fields) + Seq::<(Seq<char>, PropValue)>::empty() =~= level_view(fields));
    fields
}

/// The entries, each followed by `,` and a line break.
fn lines_exec(es: &Vec<String>) -> (r: String)
    ensures
        r@ == lines(names_view(es@)),
{
    let ghost ev = names_view(es@);
    let mut out = String::new();
    let mut k: usize = 0;
    assert(ev.take(0) =~= Seq::<Seq<char>>::empty());
    while k < es.len()
        invariant
            ev == names_view(es@),
            k <= ev.len(),
            out@ == lines(ev.take(k as int)),
        decreases ev.len() - k,
    {
        assert(ev.take(k as int + 1).drop_last() =~= ev.take(k as int));
        assert(ev.take(k as int + 1).last() == es@[k as int]@);
        out.append(es[k].as_str());
        out.append(",\n");
        k = k + 1;
    }
    assert(ev.take(ev.len() as int) =~= ev);
    out
}

/// The entries separated by `, `.
fn join_exec(es: &Vec<String>) -> (r: String)
    ensures
        r@ == join(names_view(es@)),
{
    let ghost ev = names_view(es@);
    let mut out = String::new();
    let mut k: usize = 0;
    assert(ev.take(0) =~= Seq::<Seq<char>>::empty());
    while k < es.len()
        invariant
            ev == names_view(es@),
            k <= ev.len(),
            out@ == join(ev.take(k as int)),
        decreases ev.len() - k,
    {
        assert(ev.take(k as int + 1).drop_last() =~= ev.take(k as int));
        assert(ev.take(k as int + 1).last() == es@[k as int]@);
        if k > 0 {
            out.append(", ");
        } else {
            assert(ev.take(1)[0] == es@[0]@);
            assert(out@ + es@[0]@ =~= es@[0]@);
        }
        out.append(es[k].as_str());
        k = k + 1;
    }
    assert(ev.take(ev.len() as int) =~= ev);
    out
}

/// Four spaces before each line of `s`.
fn pad_exec(s: &String) -> (r: String)
    ensures
        r@ == pad(s@),
{
    let mut out = String::new();
    let ghost all = s@;
    let mut line_start = true;
    assert(all.take(0) =~= Seq::<char>::empty());
    for c in it: s.as_str().chars()
        invariant
            all == s@,
            it.seq() == all,
            out@ == pad(all.take(it.index() as int)),
            line_start == (it.index() == 0 || all[it.index() - 1] == '\n'),
    {
        let ghost i = it.index() as int;
        let ghost t = all.take(i + 1);
        assert(t.drop_last() =~= all.take(i));
        assert(t.last() == c);
        proof {
            if i > 0 {
                assert(t[t.len() - 2] == all[i - 1]);
            }
        }
        if line_start {
            out.append("    ");
        }
        let ghost before = out@;
        let mut one = String::new();
        crate::normalize::string_push(&mut one, c);
        out.append(one.as_str());
        assert(out@ =~= before + seq![c]);
        line_start = c == '\n';
    }
    assert(all.take(all.len() as int) =~= all);
    out
}

/// A list, set or map between `open` and `close`.
fn bracketed_exec(open: &str, close: &str, es: &Vec<String>, alt: bool) -> (r: String)
    ensures
        r@ == bracketed(open@, close@, names_view(es@), alt),
{
    let mut out = String::new();
    out.append(open);
    if !alt {
        let body = join_exec(es);
        out.append(body.as_str());
    } else if es.len() > 0 {
        out.append("\n");
        let body = pad_exec(&lines_exec(es));
        out.append(body.as_str());
    }
    out.append(close);
    out
}

/// A struct called `name`.
fn structure_exec(name: &String, es: &Vec<String>, alt: bool) -> (r: String)
    ensures
        r@ == structure(name@, names_view(es@), alt),
{
    let mut out = name.clone();
    if es.len() > 0 {
        if !alt {
            out.append(" { ");
            let body = join_exec(es);
            out.append(body.as_str());
            out.append(" }");
        } else {
            out.append(" {\n");
            let body = pad_exec(&lines_exec(es));
            out.append(body.as_str());
            out.append("}");
        }
    }
    out
}

/// `on_path` marks exactly the nodes of `path`.
pub open spec fn marks(on_path: Seq<bool>, g: Seq<JsView>, path: Set<int>) -> bool {
    &&& on_path.len() == g.len()
    &&& forall|k: int| 0 <= k < g.len() ==> on_path[k] == path.contains(k)
}

/// Prints node `i`, the nodes marked in `on_path` being printed further up.
fn render(g: &Vec<JsNode>, i: usize, skip: &Vec<String>, on_path: &mut Vec<bool>, alt: bool, Ghost(path): Ghost<Set<int>>) -> (r: String)
    requires
        within(graph_view(g@), path),
        marks(old(on_path)@, graph_view(g@), path),
    ensures
        r@ == pretty_spec(graph_view(g@), i as int, names_view(skip@), path, alt),
        final(on_path)@ == old(on_path)@,
    decreases graph_view(g@).len() - path.len(), 0nat,
{
    let ghost gv = graph_view(g@);
    if i >= g.len() {
        return String::new();
    }
    if on_path[i] {
        return "[Cycle]".to_string();
    }
    let ghost inner = path.insert(i as int);
    proof {
        lemma_int_range(0, gv.len() as int);
        assert(inner.subset_of(set_int_range(0, gv.len() as int)));
        lemma_len_subset(inner, set_int_range(0, gv.len() as int));
    }
    let ghost before = on_path@;
    on_path.set(i, true);
    assert(marks(on_path@, gv, inner));
    assert(gv[i as int] == g@[i as int]@);
    let r = match &g[i] {
        JsNode::Null => "null".to_string(),
        JsNode::Undefined => "undefined".to_string(),
        JsNode::Function => "[Function]".to_string(),
        JsNode::Promise => "[Promise]".to_string(),
        JsNode::Document => "[Document]".to_string(),
        JsNode::Window => "[Window]".to_string(),
        JsNode::Str(s) => debug_str(s.as_str()),
        JsNode::Number(n) => n.clone(),
        JsNode::Bool(b) => if *b { "true".to_string() } else { "false".to_string() },
        JsNode::Date(d) => d.clone(),
        JsNode::Element { tag, id, class } => {
            let mut out = "<".to_string();
            let lower = to_ascii_lowercase(tag.as_str());
            out.append(lower.as_str());
            if id.as_str().unicode_len() > 0 {
                out.append(" #");
                out.append(id.as_str());
            }
            if class.as_str().unicode_len() > 0 {
                out.append(" .");
                out.append(class.as_str());
            }
            out.append("/>");
            out
        },
        JsNode::Error(m) => {
            let mut out = "Error: ".to_string();
            out.append(m.as_str());
            out
        },
        JsNode::RegExp(re) => {
            let mut out = "/".to_string();
            out.append(re.as_str());
            out.append("/");
            out
        },
        JsNode::Symbol(s) => s.clone(),
        JsNode::Array(items) => {
            let es = render_items(g, items, 0, skip, on_path, alt, Ghost(inner));
            bracketed_exec("[", "]", &es, alt)
        },
        JsNode::JsSet(items) => {
            let es = render_items(g, items, 0, skip, on_path, alt, Ghost(inner));
            bracketed_exec("{", "}", &es, alt)
        },
        JsNode::JsMap(pairs) => {
            let es = render_pairs(g, pairs, 0, skip, on_path, alt, Ghost(inner));
            bracketed_exec("{", "}", &es, alt)
        },
        JsNode::Object { constructor, levels } => {
            let fields = object_fields_exec(levels, skip);
            let es = render_fields(g, &fields, 0, skip, on_path, alt, Ghost(inner));
            structure_exec(constructor, &es, alt)
        },
        JsNode::Unknown(s) => {
            let mut out = "unknown (".to_string();
            out.append(s.as_str());
            out.append(")");
            out
        },
    };
    on_path.set(i, false);
    assert(on_path@ =~= before);
    r
}

/// Prints the nodes `items[j..]`.
fn render_items(g: &Vec<JsNode>, items: &Vec<usize>, j: usize, skip: &Vec<String>, on_path: &mut Vec<bool>, alt: bool, Ghost(path): Ghost<Set<int>>) -> (r: Vec<String>)
    requires
        within(graph_view(g@), path),
        marks(old(on_path)@, graph_view(g@), path),
        j <= items@.len(),
    ensures
        names_view(r@) == pretty_items(graph_view(g@), items@, j as nat, names_view(skip@), path, alt),
        final(on_path)@ == old(on_path)@,
    decreases graph_view(g@).len() - path.len(), items@.len() - j,
{
    if j < items.len() {
        let first = render(g, items[j], skip, on_path, alt, Ghost(path));
        let mut rest = render_items(g, items, j + 1, skip, on_path, alt, Ghost(path));
        let ghost rv = names_view(rest@);
        rest.insert(0, first);
        assert(names_view(rest@) =~= seq![rest@[0]@] + rv);
        rest
    } else {
        let r: Vec<String> = Vec::new();
        assert(names_view(r@) =~= Seq::<Seq<char>>::empty());
        r
    }
}

/// Prints the map entries `pairs[j..]`.
fn render_pairs(g: &Vec<JsNode>, pairs: &Vec<(usize, usize)>, j: usize, skip: &Vec<String>, on_path: &mut Vec<bool>, alt: bool, Ghost(path): Ghost<Set<int>>) -> (r: Vec<String>)
    requires
        within(graph_view(g@), path),
        marks(old(on_path)@, graph_view(g@), path),
        j <= pairs@.len(),
    ensures
        names_view(r@) == pretty_pairs(graph_view(g@), pairs@, j as nat, names_view(skip@), path, alt),
        final(on_path)@ == old(on_path)@,
    decreases graph_view(g@).len() - path.len(), pairs@.len() - j,
{
    if j < pairs.len() {
        let mut first = render(g, pairs[j].0, skip, on_path, alt, Ghost(path));
        first.append(": ");
        let value = render(g, pairs[j].1, skip, on_path, alt, Ghost(path));
        first.append(value.as_str());
        let mut rest = render_pairs(g, pairs, j + 1, skip, on_path, alt, Ghost(path));
        let ghost rv = names_view(rest@);
        rest.insert(0, first);
        assert(names_view(rest@) =~= seq![rest@[0]@] + rv);
        rest
    } else {
        let r: Vec<String> = Vec::new();
        assert(names_view(r@) =~= Seq::<Seq<char>>::empty());
        r
    }
}

/// Prints the fields `fields[j..]` of an object.
fn render_fields(g: &Vec<JsNode>, fields: &Vec<(String, PropValue)>, j: usize, skip: &Vec<String>, on_path: &mut Vec<bool>, alt: bool, Ghost(path): Ghost<Set<int>>) -> (r: Vec<String>)
    requires
        within(graph_view(g@), path),
        marks(old(on_path)@, graph_view(g@), path),
        j <= fields@.len(),
    ensures
        names_view(r@) == pretty_fields(graph_view(g@), level_view(*fields), j as nat, names_view(skip@), path, alt),
        final(on_path)@ == old(on_path)@,
    decreases graph_view(g@).len() - path.len(), fields@.len() - j,
{
    if j < fields.len() {
        assert(level_view(*fields)[j as int] == (fields@[j as int].0@, fields@[j as int].1));
        let mut first = fields[j].0.clone();
        first.append(": ");
        let value = match fields[j].1 {
            PropValue::Function => "[Function]".to_string(),
            PropValue::Value(k) => render(g, k, skip, on_path, alt, Ghost(path)),
        };
        first.append(value.as_str());
        let mut rest = render_fields(g, fields, j + 1, skip, on_path, alt, Ghost(path));
        let ghost rv = names_view(rest@);
        rest.insert(0, first);
        assert(names_view(rest@) =~= seq![rest@[0]@] + rv);
        rest
    } else {
        let r: Vec<String> = Vec::new();
        assert(names_view(r@) =~= Seq::<Seq<char>>::empty());
        r
    }
}

/// Prints node `root` of `graph`, leaving out the properties named in
/// `skip` (`alt`: `Debug`'s alternate form, one entry per line). An index
/// that names no node of the graph prints as nothing.
pub fn pretty_format(graph: &Vec<JsNode>, root: usize, skip: &Vec<String>, alt: bool) -> (r: String)
    ensures
        r@ == pretty_spec(graph_view(graph@), root as int, names_view(skip@), Set::empty(), alt),
{
    let ghost gv = graph_view(graph@);
    let mut on_path: Vec<bool> = Vec::new();
    let mut k: usize = 0;
    while k < graph.len()
        invariant
            gv == graph_view(graph@),
            k <= graph@.len(),
            on_path@.len() == k,
            forall|x: int| 0 <= x < k ==> !on_path@[x],
        decreases graph@.len() - k,
    {
        on_path.push(false);
        k = k + 1;
    }
    proof {
        assert(Set::<int>::empty().subset_of(set_int_range(0, gv.len() as int)));
    }
    render(graph, root, skip, &mut on_path, alt, Ghost(Set::empty()))
}

/// An element prints as `<` and its lower-cased tag, then ` #` and its id
/// exactly when the id is not empty, whatever its class is.
pub proof fn law_element_id(g: Seq<JsView>, i: int, skip: Seq<Seq<char>>, path: Set<int>, alt: bool)
    requires
        within(g, path),
        0 <= i < g.len(),
        !path.contains(i),
        g[i] is Element,
    ensures
        ({
            let out = pretty_spec(g, i, skip, path, alt);
            let tag = g[i]->tag;
            let id = g[i]->id;
            let n = 1 + tag.len();
            &&& n <= out.len()
            &&& out.subrange(0, n as int) == "<"@ + ascii_lower(tag)
            &&& id.len() > 0 ==> n + 2 + id.len() <= out.len() && out.subrange(n as int, (n + 2 + id.len()) as int) == " #"@ + id
            &&& id.len() == 0 ==> n + 2 <= out.len() && out[n as int + 1] != '#'
        }),
{
    reveal_strlit("<");
    reveal_strlit(" #");
    reveal_strlit(" .");
    reveal_strlit("/>");
    let tag = g[i]->tag;
    let id = g[i]->id;
    let class = g[i]->class;
    let out = pretty_spec(g, i, skip, path, alt);
    let n = 1 + tag.len();
    let head = "<"@ + ascii_lower(tag);
    let idp = if id.len() == 0 { Seq::<char>::empty() } else { " #"@ + id };
    let clp = if class.len() == 0 { Seq::<char>::empty() } else { " ."@ + class };
    assert(out == head + idp + clp + "/>"@);
    assert(head.len() == n);
    assert(out.subrange(0, n as int) =~= head);
    if id.len() > 0 {
        assert(out.subrange(n as int, (n + 2 + id.len()) as int) =~= idp);
    } else {
        assert(out == head + clp + "/>"@);
        if class.len() == 0 {
            assert(out[n as int + 1] == '>');
        } else {
            assert(out[n as int + 1] == '.');
        }
    }
}

/// Entries in ascending order of name.
pub open spec fn sorted_by_name(s: Seq<(Seq<char>, PropValue)>) -> bool {
    forall|a: int, b: int| 0 <= a < b < s.len() ==> !name_less(s[b].0, s[a].0)
}

proof fn lemma_name_less_asym(x: Seq<char>, y: Seq<char>)
    ensures
        name_less(x, y) ==> !name_less(y, x),
    decreases x.len(),
{
    if x.len() > 0 && y.len() > 0 && x[0] == y[0] {
        lemma_name_less_asym(x.drop_first(), y.drop_first());
    }
}

proof fn lemma_name_less_trans(x: Seq<char>, y: Seq<char>, z: Seq<char>)
    ensures
        name_less(x, y) && name_less(y, z) ==> name_less(x, z),
    decreases x.len(),
{
    if x.len() > 0 && y.len() > 0 && z.len() > 0 && x[0] == y[0] && y[0] == z[0] {
        lemma_name_less_trans(x.drop_first(), y.drop_first(), z.drop_first());
    }
}

proof fn lemma_insert_sorted(s: Seq<(Seq<char>, PropValue)>, e: (Seq<char>, PropValue))
    requires
        sorted_by_name(s),
    ensures
        sorted_by_name(insert_sorted(s, e)),
        insert_sorted(s, e).to_multiset() == s.to_multiset().insert(e),
    decreases s.len(),
{
    broadcast use vstd::seq_lib::group_to_multiset_ensures;
    broadcast use vstd::multiset::group_multiset_axioms;
    if s.len() == 0 {
        assert(seq![e] =~= Seq::<(Seq<char>, PropValue)>::empty().push(e));
    } else if name_less(e.0, s[0].0) {
        let r = seq![e] + s;
        assert(r =~= s.insert(0, e));
        vstd::seq_lib::to_multiset_insert(s, 0, e);
        assert forall|a: int, b: int| 0 <= a < b < r.len() implies !name_less(r[b].0, r[a].0) by {
            if a == 0 {
                let x = s[b - 1];
                assert(r[b] == x);
                lemma_name_less_asym(e.0, s[0].0);
                if b > 1 {
                    lemma_name_less_trans(x.0, e.0, s[0].0);
                }
            } else {
                assert(r[a] == s[a - 1] && r[b] == s[b - 1]);
            }
        }
    } else {
        let t0 = s.drop_first();
        assert(sorted_by_name(t0)) by {
            assert forall|a: int, b: int| 0 <= a < b < t0.len() implies !name_less(t0[b].0, t0[a].0) by {
                assert(t0[a] == s[a + 1] && t0[b] == s[b + 1]);
            }
        }
        lemma_insert_sorted(t0, e);
        let t = insert_sorted(t0, e);
        let r = seq![s[0]] + t;
        assert(r =~= t.insert(0, s[0]));
        vstd::seq_lib::to_multiset_insert(t, 0, s[0]);
        assert(s =~= t0.insert(0, s[0]));
        vstd::seq_lib::to_multiset_insert(t0, 0, s[0]);
        assert(r.to_multiset() =~= s.to_multiset().insert(e));
        assert forall|a: int, b: int| 0 <= a < b < r.len() implies !name_less(r[b].0, r[a].0) by {
            if a == 0 {
                let x = r[b];
                assert(x == t[b - 1]);
                assert(t.contains(x));
                assert(t.to_multiset().count(x) > 0);
                if x != e {
                    assert(t0.to_multiset().count(x) > 0);
                    assert(t0.contains(x));
                    let j = choose|j: int| 0 <= j < t0.len() && t0[j] == x;
                    assert(s[j + 1] == x);
                }
            } else {
                assert(r[a] == t[a - 1] && r[b] == t[b - 1]);
            }
        }
    }
}

proof fn lemma_sort_by_name(s: Seq<(Seq<char>, PropValue)>)
    ensures
        sorted_by_name(sort_by_name(s)),
        sort_by_name(s).to_multiset() == s.to_multiset(),
        sort_by_name(s).len() == s.len(),
    decreases s.len(),
{
    broadcast use vstd::seq_lib::group_to_multiset_ensures;
    if s.len() > 0 {
        lemma_sort_by_name(s.drop_last());
        lemma_insert_sorted(sort_by_name(s.drop_last()), s.last());
        assert(s =~= s.drop_last().push(s.last()));
        assert(sort_by_name(s).to_multiset().len() == s.to_multiset().len());
    }
}

/// Every entry of `s` is a value.
pub open spec fn all_values(s: Seq<(Seq<char>, PropValue)>) -> bool {
    forall|a: int| 0 <= a < s.len() ==> (#[trigger] s[a]).1 is Value
}

/// Every entry of `s` is a function.
pub open spec fn all_functions(s: Seq<(Seq<char>, PropValue)>) -> bool {
    forall|a: int| 0 <= a < s.len() ==> (#[trigger] s[a]).1 is Function
}

proof fn lemma_keep_kinds(
    level: Seq<(Seq<char>, PropValue)>,
    j: nat,
    skip: Seq<Seq<char>>,
    seen: Seq<Seq<char>>,
    values: Seq<(Seq<char>, PropValue)>,
    functions: Seq<(Seq<char>, PropValue)>,
)
    requires
        all_values(values),
        all_functions(functions),
    ensures
        all_values(keep_from(level, j, skip, seen, values, functions).0),
        all_functions(keep_from(level, j, skip, seen, values, functions).1),
    decreases level.len() - j,
{
    if j < level.len() {
        let e = level[j as int];
        if !shown(e.0, skip, seen) {
            lemma_keep_kinds(level, j + 1, skip, seen, values, functions);
        } else if e.1 is Function {
            let f2 = functions.push(e);
            assert(all_functions(f2)) by {
                assert forall|a: int| 0 <= a < f2.len() implies (#[trigger] f2[a]).1 is Function by {
                    if a < functions.len() {
                        assert(f2[a] == functions[a]);
                    }
                }
            }
            lemma_keep_kinds(level, j + 1, skip, seen.push(e.0), values, f2);
        } else {
            let v2 = values.push(e);
            assert(all_values(v2)) by {
                assert forall|a: int| 0 <= a < v2.len() implies (#[trigger] v2[a]).1 is Value by {
                    if a < values.len() {
                        assert(v2[a] == values[a]);
                    }
                }
            }
            lemma_keep_kinds(level, j + 1, skip, seen.push(e.0), v2, functions);
        }
    }
}

/// The fields an object shows for one level of its prototype chain are that
/// level's shown values in ascending name order, then its shown functions in
/// ascending name order.
pub proof fn law_object_fields_sorted(
    levels: Seq<Seq<(Seq<char>, PropValue)>>,
    i: nat,
    skip: Seq<Seq<char>>,
    seen: Seq<Seq<char>>,
)
    requires
        i < levels.len(),
    ensures
        ({
            let kept = keep_from(levels[i as int], 0, skip, seen, Seq::empty(), Seq::empty());
            let f = object_fields(levels, i, skip, seen);
            let nv = kept.0.len() as int;
            let nf = kept.1.len() as int;
            &&& nv + nf <= f.len()
            &&& sorted_by_name(f.subrange(0, nv))
            &&& f.subrange(0, nv).to_multiset() == kept.0.to_multiset()
            &&& all_values(f.subrange(0, nv))
            &&& sorted_by_name(f.subrange(nv, nv + nf))
            &&& f.subrange(nv, nv + nf).to_multiset() == kept.1.to_multiset()
            &&& all_functions(f.subrange(nv, nv + nf))
        }),
{
    broadcast use vstd::seq_lib::group_to_multiset_ensures;
    let kept = keep_from(levels[i as int], 0, skip, seen, Seq::empty(), Seq::empty());
    lemma_keep_kinds(levels[i as int], 0, skip, seen, Seq::empty(), Seq::empty());
    let vs = kept.0;
    let fs = kept.1;
    lemma_sort_by_name(vs);
    lemma_sort_by_name(fs);
    let sv = sort_by_name(vs);
    let sf = sort_by_name(fs);
    let f = object_fields(levels, i, skip, seen);
    let rest = object_fields(levels, i + 1, skip, kept.2);
    assert(f == sv + sf + rest);
    let nv = vs.len() as int;
    let nf = fs.len() as int;
    assert(f.subrange(0, nv) =~= sv);
    assert(f.subrange(nv, nv + nf) =~= sf);
    assert forall|a: int| 0 <= a < sv.len() implies (#[trigger] sv[a]).1 is Value by {
        assert(sv.contains(sv[a]));
        assert(sv.to_multiset().count(sv[a]) > 0);
        assert(vs.contains(sv[a]));
    }
    assert forall|a: int| 0 <= a < sf.len() implies (#[trigger] sf[a]).1 is Function by {
        assert(sf.contains(sf[a]));
        assert(sf.to_multiset().count(sf[a]) > 0);
        assert(fs.contains(sf[a]));
    }
}

/// The properties of `l` other than those named `k`.
pub open spec fn drop_name(l: Seq<(Seq<char>, PropValue)>, k: Seq<char>) -> Seq<(Seq<char>, PropValue)>
    decreases l.len(),
{
    if l.len() == 0 {
        l
    } else {
        (if l[0].0 == k { Seq::empty() } else { seq![l[0]] }) + drop_name(l.drop_first(), k)
    }
}

/// The graph `g` with the property `k` taken out of every object.
pub open spec fn without_property(g: Seq<JsView>, k: Seq<char>) -> Seq<JsView> {
    g.map_values(|n: JsView| match n {
        JsView::Object { constructor, levels } => JsView::Object {
            constructor,
            levels: levels.map_values(|l: Seq<(Seq<char>, PropValue)>| drop_name(l, k)),
        },
        _ => n,
    })
}

proof fn lemma_keep_shift(
    e: (Seq<char>, PropValue),
    r: Seq<(Seq<char>, PropValue)>,
    j: nat,
    skip: Seq<Seq<char>>,
    seen: Seq<Seq<char>>,
    values: Seq<(Seq<char>, PropValue)>,
    functions: Seq<(Seq<char>, PropValue)>,
)
    ensures
        keep_from(seq![e] + r, j + 1, skip, seen, values, functions) == keep_from(r, j, skip, seen, values, functions),
    decreases r.len() - j,
{
    let l = seq![e] + r;
    if j < r.len() {
        assert(l[j as int + 1] == r[j as int]);
        let x = r[j as int];
        lemma_keep_shift(e, r, j + 1, skip, seen, values, functions);
        lemma_keep_shift(e, r, j + 1, skip, seen.push(x.0), values, functions.push(x));
        lemma_keep_shift(e, r, j + 1, skip, seen.push(x.0), values.push(x), functions);
    }
}

proof fn lemma_keep_skip(
    l: Seq<(Seq<char>, PropValue)>,
    j: nat,
    skip: Seq<Seq<char>>,
    k: Seq<char>,
    seen: Seq<Seq<char>>,
    values: Seq<(Seq<char>, PropValue)>,
    functions: Seq<(Seq<char>, PropValue)>,
)
    requires
        j <= l.len(),
    ensures
        keep_from(l, j, skip.push(k), seen, values, functions)
            == keep_from(drop_name(l.subrange(j as int, l.len() as int), k), 0, skip, seen, values, functions),
    decreases l.len() - j,
{
    let r = l.subrange(j as int, l.len() as int);
    if j < l.len() {
        let e = l[j as int];
        assert(r[0] == e);
        assert(r.drop_first() =~= l.subrange(j as int + 1, l.len() as int));
        let d = drop_name(r.drop_first(), k);
        assert(skip.push(k).contains(e.0) == (skip.contains(e.0) || e.0 == k)) by {
            if skip.push(k).contains(e.0) {
                let m = choose|m: int| 0 <= m < skip.push(k).len() && skip.push(k)[m] == e.0;
                if m < skip.len() {
                    assert(skip[m] == e.0);
                }
            }
            if skip.contains(e.0) {
                let m = choose|m: int| 0 <= m < skip.len() && skip[m] == e.0;
                assert(skip.push(k)[m] == e.0);
            }
            assert(skip.push(k)[skip.len() as int] == k);
        }
        if e.0 == k {
            assert(drop_name(r, k) =~= d);
            lemma_keep_skip(l, j + 1, skip, k, seen, values, functions);
        } else {
            assert(drop_name(r, k) == seq![e] + d);
            assert((seq![e] + d)[0] == e);
            lemma_keep_skip(l, j + 1, skip, k, seen, values, functions);
            lemma_keep_skip(l, j + 1, skip, k, seen.push(e.0), values, functions.push(e));
            lemma_keep_skip(l, j + 1, skip, k, seen.push(e.0), values.push(e), functions);
            lemma_keep_shift(e, d, 0, skip, seen, values, functions);
            lemma_keep_shift(e, d, 0, skip, seen.push(e.0), values, functions.push(e));
            lemma_keep_shift(e, d, 0, skip, seen.push(e.0), values.push(e), functions);
        }
    } else {
        assert(r =~= Seq::<(Seq<char>, PropValue)>::empty());
    }
}

proof fn lemma_fields_skip(
    levels: Seq<Seq<(Seq<char>, PropValue)>>,
    i: nat,
    skip: Seq<Seq<char>>,
    k: Seq<char>,
    seen: Seq<Seq<char>>,
)
    ensures
        object_fields(levels, i, skip.push(k), seen)
            == object_fields(levels.map_values(|l: Seq<(Seq<char>, PropValue)>| drop_name(l, k)), i, skip, seen),
    decreases levels.len() - i,
{
    let dropped = levels.map_values(|l: Seq<(Seq<char>, PropValue)>| drop_name(l, k));
    if i < levels.len() {
        let l = levels[i as int];
        assert(l.subrange(0, l.len() as int) =~= l);
        assert(dropped[i as int] == drop_name(l, k));
        lemma_keep_skip(l, 0, skip, k, seen, Seq::empty(), Seq::empty());
        let kept = keep_from(l, 0, skip.push(k), seen, Seq::empty(), Seq::empty());
        lemma_fields_skip(levels, i + 1, skip, k, kept.2);
    }
}

proof fn lemma_pretty_skip(g: Seq<JsView>, i: int, skip: Seq<Seq<char>>, k: Seq<char>, path: Set<int>, alt: bool)
    requires
        within(g, path),
    ensures
        pretty_spec(g, i, skip.push(k), path, alt) == pretty_spec(without_property(g, k), i, skip, path, alt),
    decreases g.len() - path.len(), 0nat,
{
    let h = without_property(g, k);
    assert(h.len() == g.len());
    assert(within(h, path));
    if 0 <= i < g.len() && !path.contains(i) {
        let inner = path.insert(i);
        lemma_int_range(0, g.len() as int);
        assert(inner.subset_of(set_int_range(0, g.len() as int)));
        lemma_len_subset(inner, set_int_range(0, g.len() as int));
        assert(within(g, inner));
        match g[i] {
            JsView::Array(items) => {
                lemma_items_skip(g, items, 0, skip, k, inner, alt);
            },
            JsView::JsSet(items) => {
                lemma_items_skip(g, items, 0, skip, k, inner, alt);
            },
            JsView::JsMap(pairs) => {
                lemma_pairs_skip(g, pairs, 0, skip, k, inner, alt);
            },
            JsView::Object { constructor, levels } => {
                lemma_fields_skip(levels, 0, skip, k, Seq::empty());
                let f = object_fields(levels, 0, skip.push(k), Seq::empty());
                lemma_render_fields_skip(g, f, 0, skip, k, inner, alt);
            },
            _ => {},
        }
    }
}

proof fn lemma_items_skip(g: Seq<JsView>, items: Seq<usize>, j: nat, skip: Seq<Seq<char>>, k: Seq<char>, path: Set<int>, alt: bool)
    requires
        within(g, path),
    ensures
        pretty_items(g, items, j, skip.push(k), path, alt) == pretty_items(without_property(g, k), items, j, skip, path, alt),
    decreases g.len() - path.len(), items.len() - j,
{
    assert(within(without_property(g, k), path));
    if j < items.len() {
        lemma_pretty_skip(g, items[j as int] as int, skip, k, path, alt);
        lemma_items_skip(g, items, j + 1, skip, k, path, alt);
    }
}

proof fn lemma_pairs_skip(g: Seq<JsView>, pairs: Seq<(usize, usize)>, j: nat, skip: Seq<Seq<char>>, k: Seq<char>, path: Set<int>, alt: bool)
    requires
        within(g, path),
    ensures
        pretty_pairs(g, pairs, j, skip.push(k), path, alt) == pretty_pairs(without_property(g, k), pairs, j, skip, path, alt),
    decreases g.len() - path.len(), pairs.len() - j,
{
    assert(within(without_property(g, k), path));
    if j < pairs.len() {
        lemma_pretty_skip(g, pairs[j as int].0 as int, skip, k, path, alt);
        lemma_pretty_skip(g, pairs[j as int].1 as int, skip, k, path, alt);
        lemma_pairs_skip(g, pairs, j + 1, skip, k, path, alt);
    }
}

proof fn lemma_render_fields_skip(g: Seq<JsView>, fields: Seq<(Seq<char>, PropValue)>, j: nat, skip: Seq<Seq<char>>, k: Seq<char>, path: Set<int>, alt: bool)
    requires
        within(g, path),
    ensures
        pretty_fields(g, fields, j, skip.push(k), path, alt) == pretty_fields(without_property(g, k), fields, j, skip, path, alt),
    decreases g.len() - path.len(), fields.len() - j,
{
    assert(within(without_property(g, k), path));
    if j < fields.len() {
        match fields[j as int].1 {
            PropValue::Value(x) => lemma_pretty_skip(g, x as int, skip, k, path, alt),
            PropValue::Function => {},
        }
        lemma_render_fields_skip(g, fields, j + 1, skip, k, path, alt);
    }
}

/// Skipping a property applies at every depth: printing with `k` added to
/// the skipped names prints the same as printing the graph with the
/// property `k` taken out of every object.
pub proof fn law_skip_is_removal(g: Seq<JsView>, i: int, skip: Seq<Seq<char>>, k: Seq<char>, alt: bool)
    ensures
        pretty_spec(g, i, skip.push(k), Set::empty(), alt) == pretty_spec(without_property(g, k), i, skip, Set::empty(), alt),
{
    assert(Set::<int>::empty().subset_of(set_int_range(0, g.len() as int)));
    lemma_pretty_skip(g, i, skip, k, Set::empty(), alt);
}

} // verus!
