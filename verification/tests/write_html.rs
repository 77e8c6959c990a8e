use bytes::BytesMut;
use rstml_component::node::{AttrValue, DynBlock, Expr, KeyedAttribute, Node, NodeAttribute, OpenTag, Stmt, TagName};
use rstml_component::render::{render, RenderValue};
use rstml_component::{HtmlFormatter, TemplateParser};

fn path_name(name: &str) -> TagName {
    TagName::Path { qualified: false, segments: vec![name.as_bytes().to_vec()] }
}

fn element(name: &str, attributes: Vec<NodeAttribute>, close: bool, children: Vec<Node>) -> Node {
    Node::Element {
        open_tag: OpenTag { name: path_name(name), attributes },
        close_tag: if close { Some(path_name(name)) } else { None },
        children,
    }
}

fn string_attr(name: &str, value: &str) -> NodeAttribute {
    NodeAttribute::Attribute {
        attribute: KeyedAttribute {
            key: path_name(name),
            value: AttrValue::Value { value: Expr::StrLit { value: value.as_bytes().to_vec() } },
        },
    }
}

fn expr_attr(name: &str, src: &str) -> NodeAttribute {
    NodeAttribute::Attribute {
        attribute: KeyedAttribute {
            key: path_name(name),
            value: AttrValue::Value { value: Expr::Verbatim { src: src.as_bytes().to_vec() } },
        },
    }
}

fn dynamic_block(src: &str) -> Node {
    Node::Block {
        block: DynBlock::Valid {
            stmts: vec![Stmt::Expr {
                expr: Expr::Verbatim { src: src.as_bytes().to_vec() },
                semi: false,
            }],
        },
    }
}

fn literal_block(value: &str) -> Node {
    Node::Block {
        block: DynBlock::Valid {
            stmts: vec![Stmt::Expr {
                expr: Expr::StrLit { value: value.as_bytes().to_vec() },
                semi: false,
            }],
        },
    }
}

fn render_html(nodes: Vec<Node>, env: Vec<RenderValue>) -> String {
    let template = TemplateParser::new().parse_nodes(Some(nodes));
    assert!(template.diagnostics.is_empty(), "lowering reported diagnostics");
    let calls = template.emit();
    let mut formatter = HtmlFormatter::new(BytesMut::new());
    render(&mut formatter, &calls, &env).expect("failed to write html");
    let buffer = formatter.into_inner();
    String::from_utf8(buffer.as_ref().to_vec()).expect("invalid utf-8")
}

#[test]
fn empty() {
    assert_eq!(render_html(vec![], vec![]), "");
}

#[test]
fn empty_div() {
    assert_eq!(render_html(vec![element("div", vec![], false, vec![])], vec![]), "<div></div>");
    assert_eq!(render_html(vec![element("div", vec![], true, vec![])], vec![]), "<div></div>");
}

#[test]
fn empty_div_with_attributes() {
    assert_eq!(
        render_html(vec![element("div", vec![string_attr("class", "test")], false, vec![])], vec![]),
        "<div class=\"test\"></div>"
    );
}

#[test]
fn doctype() {
    assert_eq!(
        render_html(vec![Node::Doctype { value: b"html".to_vec() }], vec![]),
        "<!DOCTYPE html>"
    );
}

#[test]
fn fragment() {
    let nodes = vec![Node::Fragment {
        children: vec![
            element("div", vec![], true, vec![]),
            element("div", vec![], false, vec![]),
        ],
    }];
    assert_eq!(render_html(nodes, vec![]), "<div></div><div></div>");
}

#[test]
fn children() {
    // `<div> test </div>`: unquoted text arrives as a raw-text node
    let raw = element("div", vec![], true, vec![Node::RawText { value: b"test".to_vec() }]);
    assert_eq!(render_html(vec![raw], vec![]), "<div>test</div>");
    // `<div>"test"</div>`: a quoted literal arrives as a text node
    let quoted = element("div", vec![], true, vec![Node::Text { value: b"test".to_vec() }]);
    assert_eq!(render_html(vec![quoted], vec![]), "<div>test</div>");
}

#[test]
fn kitchen_sink() {
    let title = "Hello";
    let attribute = "world";
    let children = "I have <html> in me";

    let expected = r#"
        <!DOCTYPE html>
        <html>
            <head>
                <title>Hello</title>
            </head>
            <body>
                <!--comment-->
                <div hello="world"></div>
                <div hello="world"></div>
                <div>1</div>
                <div>Hello world with spaces</div>
                <div>3</div>
                <div>world</div>
                <hr />
                <hr />
                <main>
                    I have &lt;html&gt; in me
                </main>
            </body>
        </html>
    "#
    .trim()
    .lines()
    .map(|l| l.trim())
    .collect::<String>();

    let nodes = vec![
        Node::Doctype { value: b"html".to_vec() },
        element(
            "html",
            vec![],
            true,
            vec![
                element("head", vec![], true, vec![element("title", vec![], true, vec![
                    dynamic_block("title"),
                ])]),
                element(
                    "body",
                    vec![],
                    true,
                    vec![
                        Node::Comment { value: b"comment".to_vec() },
                        element("div", vec![expr_attr("hello", "attribute.clone()")], false, vec![]),
                        element("div", vec![expr_attr("hello", "attribute.clone()")], false, vec![]),
                        Node::Fragment {
                            children: vec![
                                element("div", vec![], true, vec![Node::Text { value: b"1".to_vec() }]),
                                element("div", vec![], true, vec![Node::RawText {
                                    value: b"Hello world with spaces".to_vec(),
                                }]),
                                element("div", vec![], true, vec![Node::Text { value: b"3".to_vec() }]),
                                element("div", vec![], true, vec![dynamic_block("attribute")]),
                                element("hr", vec![], false, vec![]),
                                element("hr", vec![], false, vec![]),
                            ],
                        },
                        element("main", vec![], true, vec![dynamic_block("children")]),
                    ],
                ),
            ],
        ),
    ];

    let env = vec![
        RenderValue::Content { text: title.to_string() },
        RenderValue::AttrValue { text: attribute.to_string() },
        RenderValue::AttrValue { text: attribute.to_string() },
        RenderValue::Content { text: attribute.to_string() },
        RenderValue::Content { text: children.to_string() },
    ];
    assert_eq!(render_html(nodes, env), expected);

    // a string literal in content position needs no environment value
    assert_eq!(
        render_html(vec![element("div", vec![], true, vec![literal_block("1")])], vec![]),
        "<div>1</div>"
    );
}

#[test]
fn end_to_end_static_markup() {
    // `<!DOCTYPE html><div hello="world"></div><div>{"1"}</div><hr><hr/>`
    let nodes = vec![
        Node::Doctype { value: b"html".to_vec() },
        element("div", vec![string_attr("hello", "world")], true, vec![]),
        element("div", vec![], true, vec![literal_block("1")]),
        element("hr", vec![], false, vec![]),
        element("hr", vec![], false, vec![]),
    ];
    assert_eq!(
        render_html(nodes, vec![]),
        "<!DOCTYPE html><div hello=\"world\"></div><div>1</div><hr /><hr />"
    );
}
