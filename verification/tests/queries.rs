use moxie_dom::normalize::normalize_whitespace;
use moxie_dom::rsdom::{create_element, VirtDocument};
use moxie_dom::testing::{only_match, QueryError};

fn example_dom(doc: &mut VirtDocument) -> (usize, usize, usize) {
    let div = create_element(doc, "div");

    let label = create_element(doc, "label");
    doc.set_attribute(label, "for", "username");
    let t = doc.create_text_node("Username");
    doc.append_child(label, t);
    doc.append_child(div, label);

    let input = create_element(doc, "input");
    doc.set_attribute(input, "id", "username");
    doc.append_child(div, input);

    let button = create_element(doc, "button");
    let t = doc.create_text_node("Print Username");
    doc.append_child(button, t);
    doc.append_child(div, button);
    (div, input, button)
}

#[test]
fn basic_matchers() {
    let mut doc = VirtDocument::new();
    let (container, input_node, button_node) = example_dom(&mut doc);

    let ada = "Ada Lovelace";
    let input = doc.find(container).by_label_text("Username").one(&doc).unwrap();
    assert_eq!(input, input_node);
    doc.set_attribute(input, "value", ada);

    let button = doc.find(container).by_text("Print Username").one(&doc).unwrap();
    assert_eq!(button, button_node);

    // what the click handler adds
    let printed_name_container = create_element(&mut doc, "div");
    doc.set_attribute(printed_name_container, "data-testid", "printed-username");
    let value = doc.get_attribute(input, "value").unwrap();
    let input_text = doc.create_text_node(&value);
    doc.append_child(printed_name_container, input_text);
    doc.append_child(container, printed_name_container);

    let printed = doc.find(container).by_test_id("printed-username").one(&doc).unwrap();
    assert_eq!(doc.get_inner_text(printed), ada);

    let expected = "<div>
  <label for=\"username\">Username</label>
  <input id=\"username\" value=\"Ada Lovelace\">
  </input>
  <button>Print Username</button>
  <div data-testid=\"printed-username\">Ada Lovelace</div>
</div>";
    assert_eq!(doc.pretty_outer_html(container, 2), expected);
}

#[test]
fn query_errors() {
    let mut doc = VirtDocument::new();
    let ul = create_element(&mut doc, "ul");
    let a = create_element(&mut doc, "li");
    let b = create_element(&mut doc, "li");
    doc.set_attribute(a, "role", "item");
    doc.set_attribute(b, "role", "item");
    doc.append_child(ul, a);
    doc.append_child(ul, b);
    // several matches are for `many`; `only_match` reports the extra ones
    match only_match(doc.find(ul).by_role("item").many(&doc)) {
        Err(QueryError::TooMany { matched, extra }) => {
            assert_eq!(matched, a);
            assert_eq!(extra, vec![b]);
        }
        other => panic!("expected TooMany, got {:?}", other),
    }
    match doc.find(ul).by_role("button").one(&doc) {
        Err(QueryError::Missing) => {}
        other => panic!("expected Missing, got {:?}", other),
    }
    assert_eq!(doc.find(ul).by_role("item").many(&doc), vec![a, b]);
    // the container itself is not searched
    doc.set_attribute(ul, "role", "item");
    assert_eq!(doc.find(ul).by_role("item").many(&doc), vec![a, b]);
}

#[test]
fn attribute_strategies() {
    let mut doc = VirtDocument::new();
    let root = create_element(&mut doc, "div");
    let img = create_element(&mut doc, "img");
    doc.set_attribute(img, "alt", "  a   cat ");
    doc.set_attribute(img, "title", "Kitty");
    let field = create_element(&mut doc, "input");
    doc.set_attribute(field, "placeholder", "Your name");
    doc.set_attribute(field, "value", "Grace");
    doc.append_child(root, img);
    doc.append_child(root, field);
    assert_eq!(doc.find(root).by_alt_text("a cat").one(&doc).unwrap(), img);
    assert_eq!(doc.find(root).by_title("Kitty").one(&doc).unwrap(), img);
    assert_eq!(doc.find(root).by_placeholder_text("Your name").one(&doc).unwrap(), field);
    assert_eq!(doc.find(root).by_display_value("Grace").one(&doc).unwrap(), field);
    assert!(doc.find(root).by_label_text("Your name").many(&doc).is_empty());
}

#[test]
fn preorder_traversal() {
    let mut doc = VirtDocument::new();
    let root = create_element(&mut doc, "div");
    let a = create_element(&mut doc, "p");
    let a1 = doc.create_text_node("x");
    let b = create_element(&mut doc, "p");
    doc.append_child(a, a1);
    doc.append_child(root, a);
    doc.append_child(root, b);
    let mut q = Vec::new();
    doc.collect_children_dfs_preorder(root, &mut q);
    assert_eq!(q, vec![a, a1, b]);
}

#[test]
fn normalize_collapses_whitespace() {
    assert_eq!(normalize_whitespace("  hello \t\n world  "), "hello world");
    assert_eq!(normalize_whitespace(""), "");
    assert_eq!(normalize_whitespace("   "), "");
    assert_eq!(normalize_whitespace("a\u{00A0}b\u{3000}c"), "a b c");
    let once = normalize_whitespace(" x  y ");
    assert_eq!(normalize_whitespace(&once), once);
}

#[test]
fn only_match_distinguishes_none_one_and_many() {
    assert!(matches!(only_match(vec![]), Err(QueryError::Missing)));
    assert_eq!(only_match(vec![7]).unwrap(), 7);
    match only_match(vec![3, 1, 4]) {
        Err(QueryError::TooMany { matched, extra }) => {
            assert_eq!(matched, 3);
            assert_eq!(extra, vec![1, 4]);
        }
        other => panic!("unexpected {:?}", other),
    }
}

#[test]
fn label_text_also_reads_aria_label() {
    let mut doc = VirtDocument::new();
    let div = create_element(&mut doc, "div");
    let input = create_element(&mut doc, "input");
    doc.set_attribute(input, "aria-label", "  Your   Name ");
    doc.append_child(div, input);
    let other = create_element(&mut doc, "input");
    doc.set_attribute(other, "aria-label", "Age");
    doc.append_child(div, other);
    assert_eq!(doc.find(div).by_label_text("Your Name").one(&doc).unwrap(), input);
    assert!(doc.find(div).by_label_text("Nobody").many(&doc).is_empty());
}

#[test]
fn title_also_reads_svg_title_text() {
    let mut doc = VirtDocument::new();
    let div = create_element(&mut doc, "div");
    let svg = create_element(&mut doc, "svg");
    let title = create_element(&mut doc, "title");
    let t = doc.create_text_node("Close  icon");
    doc.append_child(title, t);
    doc.append_child(svg, title);
    doc.append_child(div, svg);
    let span = create_element(&mut doc, "span");
    doc.set_attribute(span, "title", "Close icon");
    doc.append_child(div, span);
    // a `title` element outside of an svg is not read
    let loose = create_element(&mut doc, "title");
    let t2 = doc.create_text_node("Close icon");
    doc.append_child(loose, t2);
    doc.append_child(div, loose);
    assert_eq!(doc.find(div).by_title("Close icon").many(&doc), vec![title, span]);
}
