use moxie_dom::prettiest::{pretty_format, JsNode, PropValue};

fn s(x: &str) -> String {
    x.to_string()
}

#[test]
fn arrays_print_compact_and_alternate() {
    let g = vec![
        JsNode::Array(vec![1, 2, 3]),
        JsNode::Number(s("1")),
        JsNode::Str(s("a\"b")),
        JsNode::Null,
    ];
    assert_eq!(pretty_format(&g, 0, &vec![], false), "[1, \"a\\\"b\", null]");
    assert_eq!(pretty_format(&g, 0, &vec![], true), "[\n    1,\n    \"a\\\"b\",\n    null,\n]");
}

#[test]
fn an_object_on_the_path_prints_as_cycle() {
    let g = vec![
        JsNode::Object { constructor: s("Foo"), levels: vec![vec![(s("self"), PropValue::Value(0)), (s("x"), PropValue::Value(1))]] },
        JsNode::Number(s("2")),
    ];
    assert_eq!(pretty_format(&g, 0, &vec![], false), "Foo { self: [Cycle], x: 2 }");
}

#[test]
fn a_shared_object_prints_each_time() {
    let g = vec![
        JsNode::Array(vec![1, 1]),
        JsNode::Object { constructor: s("O"), levels: vec![vec![(s("v"), PropValue::Value(2))]] },
        JsNode::Number(s("1")),
    ];
    assert_eq!(pretty_format(&g, 0, &vec![], false), "[O { v: 1 }, O { v: 1 }]");
}

#[test]
fn object_fields_are_filtered_and_sorted_per_level() {
    let g = vec![
        JsNode::Object {
            constructor: s("Bar"),
            levels: vec![
                vec![
                    (s("b"), PropValue::Value(1)),
                    (s("a"), PropValue::Value(2)),
                    (s("go"), PropValue::Function),
                    (s("__proto__"), PropValue::Value(1)),
                    (s("hidden"), PropValue::Value(1)),
                ],
                vec![(s("a"), PropValue::Value(3)), (s("c"), PropValue::Value(3)), (s("act"), PropValue::Function)],
            ],
        },
        JsNode::Bool(true),
        JsNode::Str(s("x")),
        JsNode::Undefined,
    ];
    assert_eq!(
        pretty_format(&g, 0, &vec![s("hidden")], false),
        "Bar { a: \"x\", b: true, go: [Function], c: undefined, act: [Function] }"
    );
}

#[test]
fn nested_values_indent_in_the_alternate_form() {
    let g = vec![
        JsNode::Array(vec![1]),
        JsNode::Object { constructor: s("Foo"), levels: vec![vec![(s("x"), PropValue::Value(2))]] },
        JsNode::Number(s("1")),
    ];
    assert_eq!(pretty_format(&g, 0, &vec![], true), "[\n    Foo {\n        x: 1,\n    },\n]");
}

#[test]
fn maps_sets_and_empty_objects() {
    let g = vec![
        JsNode::JsMap(vec![(1, 2)]),
        JsNode::Number(s("1")),
        JsNode::Str(s("a")),
        JsNode::JsSet(vec![]),
        JsNode::Object { constructor: s("Empty"), levels: vec![vec![]] },
    ];
    assert_eq!(pretty_format(&g, 0, &vec![], false), "{1: \"a\"}");
    assert_eq!(pretty_format(&g, 0, &vec![], true), "{\n    1: \"a\",\n}");
    assert_eq!(pretty_format(&g, 3, &vec![], false), "{}");
    assert_eq!(pretty_format(&g, 3, &vec![], true), "{}");
    assert_eq!(pretty_format(&g, 4, &vec![], true), "Empty");
}

#[test]
fn leaves_have_fixed_renderings() {
    let g = vec![
        JsNode::Element { tag: s("DIV"), id: s("main"), class: s("big red") },
        JsNode::Element { tag: s("SPAN"), id: s(""), class: s("") },
        JsNode::Error(s("boom")),
        JsNode::RegExp(s("ab")),
        JsNode::Function,
        JsNode::Promise,
        JsNode::Document,
        JsNode::Window,
        JsNode::Bool(false),
        JsNode::Unknown(s("JsValue(1n)")),
        JsNode::Date(s("2020-01-01T00:00:00.000Z")),
        JsNode::Symbol(s("Symbol(x)")),
    ];
    let out: Vec<String> = (0..g.len()).map(|i| pretty_format(&g, i, &vec![], false)).collect();
    assert_eq!(
        out,
        vec![
            "<div #main .big red/>",
            "<span/>",
            "Error: boom",
            "/ab/",
            "[Function]",
            "[Promise]",
            "[Document]",
            "[Window]",
            "false",
            "unknown (JsValue(1n))",
            "2020-01-01T00:00:00.000Z",
            "Symbol(x)",
        ]
    );
    assert_eq!(pretty_format(&g, 99, &vec![], false), "");
}
