use moxie_dom::rsdom::{create_element, VirtDocument};

fn list_dom(doc: &mut VirtDocument) -> usize {
    let root = create_element(doc, "div");
    let ul = create_element(doc, "ul");
    doc.set_attribute(ul, "class", "listywisty");
    doc.append_child(root, ul);
    for (i, t) in ["first", "second", "third"].iter().enumerate() {
        let li = create_element(doc, "li");
        if i == 1 {
            doc.set_attribute(li, "class", "item");
        }
        let text = doc.create_text_node(t);
        doc.append_child(li, text);
        doc.append_child(ul, li);
    }
    root
}

#[test]
fn basic_list_prerender() {
    let mut doc = VirtDocument::new();
    let root = list_dom(&mut doc);
    assert_eq!(
        doc.outer_html(root),
        r#"<div><ul class="listywisty"><li>first</li><li class="item">second</li><li>third</li></ul></div>"#,
        "concisely-rendered string output must have no newlines or indentation"
    );
    assert_eq!(
        format!("\n{}", doc.pretty_outer_html(root, 4)),
        r#"
<div>
    <ul class="listywisty">
        <li>first</li>
        <li class="item">second</li>
        <li>third</li>
    </ul>
</div>"#,
        "pretty debug output must be 4-space-indented"
    );
    assert_eq!(
        format!("\n{}", doc.pretty_outer_html(root, 2)),
        r#"
<div>
  <ul class="listywisty">
    <li>first</li>
    <li class="item">second</li>
    <li>third</li>
  </ul>
</div>"#,
        "Display output must be 2-space-indented"
    );
}

fn parts_list(parts: &[&str]) -> String {
    let mut doc = VirtDocument::new();
    let web_div = create_element(&mut doc, "div");
    let list = create_element(&mut doc, "ul");
    for item in parts {
        let li = create_element(&mut doc, "li");
        let t = doc.create_text_node(item);
        doc.append_child(li, t);
        doc.append_child(list, li);
    }
    moxie_dom::boot(&mut doc, web_div, list);
    doc.pretty_outer_html(web_div, 2)
}

#[test]
fn extracts_one_component() {
    assert_eq!(
        parts_list(&["head"]),
        r#"<div>
  <ul>
    <li>head</li>
  </ul>
</div>"#,
    );
}

#[test]
fn extracts_multiple_components() {
    assert_eq!(
        parts_list(&["head", "shoulders", "knees", "toes"]),
        r#"<div>
  <ul>
    <li>head</li>
    <li>shoulders</li>
    <li>knees</li>
    <li>toes</li>
  </ul>
</div>"#,
    );
}

#[test]
fn text_and_attribute_values_are_escaped() {
    let mut doc = VirtDocument::new();
    let p = create_element(&mut doc, "p");
    doc.set_attribute(p, "title", "say \"hi\" & <bye>");
    let t = doc.create_text_node("a<b & 'c' > d");
    doc.append_child(p, t);
    assert_eq!(
        doc.outer_html(p),
        "<p title=\"say &quot;hi&quot; &amp; &lt;bye&gt;\">a&lt;b &amp; &apos;c&apos; &gt; d</p>"
    );
    assert_eq!(doc.outer_html(t), "a&lt;b &amp; &apos;c&apos; &gt; d");
}

#[test]
fn non_ascii_text_is_kept() {
    let mut doc = VirtDocument::new();
    let p = create_element(&mut doc, "p");
    let t = doc.create_text_node("héllo → wörld ✓");
    doc.append_child(p, t);
    assert_eq!(doc.outer_html(p), "<p>héllo → wörld ✓</p>");
}

#[test]
fn empty_element_renders_both_tags() {
    let mut doc = VirtDocument::new();
    let div = create_element(&mut doc, "div");
    let input = create_element(&mut doc, "input");
    doc.set_attribute(input, "id", "username");
    doc.append_child(div, input);
    assert_eq!(doc.outer_html(div), "<div><input id=\"username\"></input></div>");
    assert_eq!(doc.pretty_outer_html(div, 2), "<div>\n  <input id=\"username\">\n  </input>\n</div>");
    assert_eq!(doc.pretty_outer_html(input, 2), "<input id=\"username\">\n</input>");
}

#[test]
fn text_after_tag_and_tag_after_text() {
    let mut doc = VirtDocument::new();
    let p = create_element(&mut doc, "p");
    let a = doc.create_text_node("one ");
    let b = create_element(&mut doc, "b");
    let bt = doc.create_text_node("two");
    let c = doc.create_text_node(" three");
    doc.append_child(b, bt);
    doc.append_child(p, a);
    doc.append_child(p, b);
    doc.append_child(p, c);
    assert_eq!(doc.outer_html(p), "<p>one <b>two</b> three</p>");
    assert_eq!(doc.pretty_outer_html(p, 2), "<p>one <b>two</b> three</p>");
}

#[test]
fn inner_text_collects_descendant_text() {
    let mut doc = VirtDocument::new();
    let div = create_element(&mut doc, "div");
    let a = doc.create_text_node("Hello, ");
    let b = create_element(&mut doc, "b");
    let bt = doc.create_text_node("world");
    doc.append_child(b, bt);
    doc.append_child(div, a);
    doc.append_child(div, b);
    assert_eq!(doc.get_inner_text(div), "Hello, world");
    assert_eq!(doc.get_inner_text(b), "world");
    assert_eq!(doc.get_inner_text(a), "");
}
