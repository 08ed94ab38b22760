use moxie_dom::cached_node::CachedNode;
use moxie_dom::rsdom::{create_element, VirtDocument};

#[test]
fn attributes_set_get_remove() {
    let mut doc = VirtDocument::new();
    let div = create_element(&mut doc, "div");
    assert_eq!(doc.get_attribute(div, "id"), None);
    doc.set_attribute(div, "id", "boo");
    assert_eq!(doc.get_attribute(div, "id"), Some(String::from("boo")));
    doc.set_attribute(div, "class", "a");
    doc.set_attribute(div, "id", "aha");
    assert_eq!(doc.get_attribute(div, "id"), Some(String::from("aha")));
    assert_eq!(doc.outer_html(div), "<div id=\"aha\" class=\"a\"></div>");
    doc.remove_attribute(div, "id");
    assert_eq!(doc.get_attribute(div, "id"), None);
    assert_eq!(doc.get_attribute(div, "class"), Some(String::from("a")));
    assert_eq!(doc.outer_html(div), "<div class=\"a\"></div>");
    doc.remove_attribute(div, "missing");
    assert_eq!(doc.outer_html(div), "<div class=\"a\"></div>");
}

#[test]
fn text_nodes_have_no_attributes() {
    let mut doc = VirtDocument::new();
    let t = doc.create_text_node("hi");
    assert_eq!(doc.get_attribute(t, "id"), None);
    assert!(!doc.is_element(t));
}

#[test]
fn children_and_siblings() {
    let mut doc = VirtDocument::new();
    let ul = create_element(&mut doc, "ul");
    assert_eq!(doc.first_child(ul), None);
    let a = create_element(&mut doc, "li");
    let b = create_element(&mut doc, "li");
    let c = create_element(&mut doc, "li");
    doc.append_child(ul, a);
    doc.append_child(ul, b);
    doc.append_child(ul, c);
    assert_eq!(doc.first_child(ul), Some(a));
    assert_eq!(doc.next_sibling(a), Some(b));
    assert_eq!(doc.next_sibling(b), Some(c));
    assert_eq!(doc.next_sibling(c), None);
    assert_eq!(doc.next_sibling(ul), None);
    assert_eq!(doc.parent(b), Some(ul));
    assert_eq!(doc.children(ul), &vec![a, b, c]);
}

#[test]
fn append_moves_a_node() {
    let mut doc = VirtDocument::new();
    let p1 = create_element(&mut doc, "div");
    let p2 = create_element(&mut doc, "div");
    let x = create_element(&mut doc, "span");
    let y = create_element(&mut doc, "span");
    doc.append_child(p1, x);
    doc.append_child(p1, y);
    doc.append_child(p2, x);
    assert_eq!(doc.children(p1), &vec![y]);
    assert_eq!(doc.children(p2), &vec![x]);
    assert_eq!(doc.parent(x), Some(p2));
    // re-appending to the same parent moves it to the end
    doc.append_child(p1, x);
    doc.append_child(p1, y);
    assert_eq!(doc.children(p1), &vec![x, y]);
    assert_eq!(doc.children(p2), &vec![]);
}

#[test]
fn remove_child_only_removes_children() {
    let mut doc = VirtDocument::new();
    let p = create_element(&mut doc, "div");
    let q = create_element(&mut doc, "div");
    let x = create_element(&mut doc, "span");
    doc.append_child(p, x);
    assert_eq!(doc.remove_child(q, x), None);
    assert_eq!(doc.children(p), &vec![x]);
    assert_eq!(doc.remove_child(p, x), Some(x));
    assert_eq!(doc.children(p), &vec![]);
    assert_eq!(doc.parent(x), None);
    assert_eq!(doc.remove_child(p, x), None);
}

#[test]
fn replace_child_takes_the_same_position() {
    let mut doc = VirtDocument::new();
    let p = create_element(&mut doc, "ul");
    let a = create_element(&mut doc, "li");
    let b = create_element(&mut doc, "li");
    let c = create_element(&mut doc, "li");
    let n = create_element(&mut doc, "li");
    doc.append_child(p, a);
    doc.append_child(p, b);
    doc.append_child(p, c);
    doc.replace_child(p, n, b);
    assert_eq!(doc.children(p), &vec![a, n, c]);
    assert_eq!(doc.parent(b), None);
    assert_eq!(doc.parent(n), Some(p));
    // a child later in the list moves into the replaced slot
    doc.replace_child(p, c, a);
    assert_eq!(doc.children(p), &vec![c, n]);
    // replacing a child with itself changes nothing
    doc.replace_child(p, n, n);
    assert_eq!(doc.children(p), &vec![c, n]);
}

#[test]
fn contains_follows_descendants() {
    let mut doc = VirtDocument::new();
    let a = create_element(&mut doc, "div");
    let b = create_element(&mut doc, "div");
    let c = create_element(&mut doc, "div");
    let d = create_element(&mut doc, "div");
    doc.append_child(a, b);
    doc.append_child(b, c);
    assert!(doc.contains(a, a));
    assert!(doc.contains(a, c));
    assert!(doc.contains(b, c));
    assert!(!doc.contains(c, a));
    assert!(!doc.contains(a, d));
    assert_eq!(doc.len(), 4);
}

#[test]
fn remove_after_append_restores_children() {
    let mut doc = VirtDocument::new();
    let p = create_element(&mut doc, "div");
    let a = create_element(&mut doc, "p");
    let c = create_element(&mut doc, "p");
    doc.append_child(p, a);
    let before = doc.outer_html(p);
    doc.append_child(p, c);
    assert_eq!(doc.remove_child(p, c), Some(c));
    assert_eq!(doc.outer_html(p), before);
}

#[test]
fn cached_node_reconciles_children() {
    let mut doc = VirtDocument::new();
    let p = create_element(&mut doc, "ul");
    let old1 = create_element(&mut doc, "li");
    let old2 = create_element(&mut doc, "li");
    let old3 = create_element(&mut doc, "li");
    doc.append_child(p, old1);
    doc.append_child(p, old2);
    doc.append_child(p, old3);
    let n1 = create_element(&mut doc, "li");
    // a revision that declares n1, then old3, then nothing more
    let mut cached = CachedNode::new(p);
    assert_eq!(cached.raw_node(), p);
    cached.ensure_child_attached(&mut doc, n1);
    assert_eq!(doc.children(p), &vec![n1, old2, old3]);
    cached.ensure_child_attached(&mut doc, old3);
    assert_eq!(doc.children(p), &vec![n1, old3]);
    cached.remove_trailing_children(&mut doc);
    assert_eq!(doc.children(p), &vec![n1, old3]);
    // removing the trailing children again in the same revision changes nothing
    cached.remove_trailing_children(&mut doc);
    assert_eq!(doc.children(p), &vec![n1, old3]);
    assert_eq!(doc.parent(old1), None);
    assert_eq!(doc.parent(old2), None);
    // a revision that declares nothing removes every child
    let mut empty = CachedNode::new(p);
    empty.remove_trailing_children(&mut doc);
    assert_eq!(doc.children(p), &vec![]);
}

#[test]
fn boot_makes_root_the_only_child() {
    let mut doc = VirtDocument::new();
    let parent = create_element(&mut doc, "div");
    let stale = create_element(&mut doc, "p");
    doc.append_child(parent, stale);
    let root = create_element(&mut doc, "main");
    moxie_dom::boot(&mut doc, parent, root);
    assert_eq!(doc.children(parent), &vec![root]);
    moxie_dom::boot(&mut doc, parent, root);
    assert_eq!(doc.children(parent), &vec![root]);
    assert_eq!(doc.outer_html(parent), "<div><main></main></div>");
}
