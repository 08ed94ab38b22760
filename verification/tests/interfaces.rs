use moxie_dom::elements::{button, div, iframe, input, label, ol, td, text, textarea, decimal_string};
use moxie_dom::interfaces::element::ElementBuilder;
use moxie_dom::interfaces::html_element::HtmlElement;
use moxie_dom::interfaces::node::Node;
use moxie_dom::interfaces::security::ReferrerPolicy;
use moxie_dom::rsdom::VirtDocument;

#[test]
fn referrer_policy_names() {
    assert_eq!(ReferrerPolicy::NoReferrer.as_str(), "no-referrer");
    assert_eq!(ReferrerPolicy::NoReferrerWhenDowngrade.as_str(), "no-referrer-when-downgrade");
    assert_eq!(ReferrerPolicy::Origin.as_str(), "origin");
    assert_eq!(ReferrerPolicy::OriginWhenCrossOrigin.as_str(), "origin-when-cross-origin");
    assert_eq!(ReferrerPolicy::SameOrigin.as_str(), "same-origin");
    assert_eq!(ReferrerPolicy::StrictOrigin.as_str(), "strict-origin");
    assert_eq!(ReferrerPolicy::StrictOriginWhenCrossOrigin.as_str(), "strict-origin-when-cross-origin");
}

#[test]
fn element_builders_set_attributes() {
    let mut doc = VirtDocument::new();
    let d = div(&mut doc).class(&mut doc, "box").id(&mut doc, "main").style(&mut doc, "color: red");
    let d = d.data(&mut doc, "count", "3").hidden(&mut doc, true).draggable(&mut doc, false);
    let d = d.title(&mut doc, "A box").lang(&mut doc, "en");
    let n = d.raw_node_that_has_sharp_edges_please_be_careful();
    assert_eq!(
        doc.outer_html(n),
        "<div class=\"box\" id=\"main\" style=\"color: red\" data-count=\"3\" hidden=\"\" title=\"A box\" lang=\"en\"></div>"
    );
}

#[test]
fn element_constructors_create_detached_nodes() {
    let mut doc = VirtDocument::new();
    let b = button(&mut doc);
    let t = text(&mut doc, "Go");
    let i = input(&mut doc).attribute(&mut doc, "type", "text");
    let bn = b.raw_node_that_has_sharp_edges_please_be_careful();
    let tn = t.raw_node_that_has_sharp_edges_please_be_careful();
    doc.append_child(bn, tn);
    assert_eq!(doc.outer_html(bn), "<button>Go</button>");
    assert_eq!(doc.parent(i.raw_node_that_has_sharp_edges_please_be_careful()), None);
}

#[test]
fn referrer_policy_to_string() {
    assert_eq!(ReferrerPolicy::StrictOrigin.to_string(), String::from("strict-origin"));
    assert_eq!(ReferrerPolicy::NoReferrer.to_string(), String::from("no-referrer"));
}

#[test]
fn element_attribute_methods() {
    let mut doc = VirtDocument::new();
    let l = label(&mut doc).for_(&mut doc, "name");
    assert_eq!(doc.outer_html(l.raw_node_that_has_sharp_edges_please_be_careful()), "<label for=\"name\"></label>");

    let t = textarea(&mut doc).cols(&mut doc, 40).maxlength(&mut doc, 1000).disabled(&mut doc, true).readonly(&mut doc, false);
    assert_eq!(
        doc.outer_html(t.raw_node_that_has_sharp_edges_please_be_careful()),
        "<textarea cols=\"40\" maxlength=\"1000\" disabled=\"\"></textarea>"
    );

    let f = iframe(&mut doc).referrerpolicy(&mut doc, ReferrerPolicy::SameOrigin);
    assert_eq!(
        doc.outer_html(f.raw_node_that_has_sharp_edges_please_be_careful()),
        "<iframe referrerpolicy=\"same-origin\"></iframe>"
    );

    let i = input(&mut doc).type_(&mut doc, "checkbox").required(&mut doc, true);
    assert_eq!(
        doc.outer_html(i.raw_node_that_has_sharp_edges_please_be_careful()),
        "<input type=\"checkbox\" required=\"\"></input>"
    );

    let o = ol(&mut doc).start(&mut doc, 0).reversed(&mut doc, true);
    assert_eq!(doc.outer_html(o.raw_node_that_has_sharp_edges_please_be_careful()), "<ol start=\"0\" reversed=\"\"></ol>");

    let c = td(&mut doc);
    let m = moxie_dom::elements::media::map(&mut doc).name(&mut doc, "m");
    assert_eq!(doc.outer_html(c.raw_node_that_has_sharp_edges_please_be_careful()), "<td></td>");
    assert_eq!(doc.outer_html(m.raw_node_that_has_sharp_edges_please_be_careful()), "<map name=\"m\"></map>");
}

#[test]
fn decimal_strings() {
    assert_eq!(decimal_string(0), "0");
    assert_eq!(decimal_string(7), "7");
    assert_eq!(decimal_string(4294967295), "4294967295");
}
