use bytes::BytesMut;
use rstml_component::node::{AttrValue, DynBlock, Expr, KeyedAttribute, Node, NodeAttribute, OpenTag, Stmt, TagName};
use rstml_component::template::{Children, TemplateWriteInstruction};
use rstml_component::{FmtError, For, HtmlFormatter, TemplateParser};

#[test]
fn for_iter() {
    let items = vec!["a", "b", "c"];

    // `<ul><For items={items}>{|f, item| ...}</For></ul>`: the component tag
    // lowers to one Component instruction whose children bind to the closure
    // expression directly.
    let closure_src = b"|f, item| write_html!(f, <li id=item>{item}</li>)".to_vec();
    let nodes = vec![Node::Element {
        open_tag: OpenTag {
            name: TagName::Path { qualified: false, segments: vec![b"ul".to_vec()] },
            attributes: vec![],
        },
        close_tag: Some(TagName::Path { qualified: false, segments: vec![b"ul".to_vec()] }),
        children: vec![Node::Element {
            open_tag: OpenTag {
                name: TagName::Path { qualified: false, segments: vec![b"For".to_vec()] },
                attributes: vec![NodeAttribute::Attribute {
                    attribute: KeyedAttribute {
                        key: TagName::Path { qualified: false, segments: vec![b"items".to_vec()] },
                        value: AttrValue::Value {
                            value: Expr::Verbatim { src: b"{items}".to_vec() },
                        },
                    },
                }],
            },
            close_tag: Some(TagName::Path { qualified: false, segments: vec![b"For".to_vec()] }),
            children: vec![Node::Block {
                block: DynBlock::Valid {
                    stmts: vec![Stmt::Expr {
                        expr: Expr::Verbatim { src: closure_src },
                        semi: false,
                    }],
                },
            }],
        }],
    }];

    let template = TemplateParser::new().parse_nodes(Some(nodes));
    assert!(template.diagnostics.is_empty());
    assert_eq!(template.instructions.len(), 4);
    assert!(matches!(&template.instructions[0], TemplateWriteInstruction::OpenTagStart { .. }));
    assert!(matches!(&template.instructions[1], TemplateWriteInstruction::OpenTagEnd));
    match &template.instructions[2] {
        TemplateWriteInstruction::Component { component } => {
            assert_eq!(component.props.len(), 1);
            assert_eq!(component.props[0].name, b"items".to_vec());
            assert!(matches!(component.children, Some(Children::Expr { .. })));
        }
        other => panic!("expected a component instruction, got {:?}", other),
    }
    assert!(matches!(&template.instructions[3], TemplateWriteInstruction::EndTag { .. }));

    // run the generated code's calls: the component iterates `items` and
    // invokes the child render closure once per item, in input order
    let mut formatter = HtmlFormatter::new(BytesMut::new());
    formatter.write_open_tag_start(b"ul");
    formatter.write_open_tag_end();
    let child = |mut f: HtmlFormatter, item: &str| -> (HtmlFormatter, Result<(), FmtError>) {
        f.write_open_tag_start(b"li");
        f.write_attribute_name(b"id");
        if let Err(e) = f.write_attribute_value(item) {
            return (f, Err(e));
        }
        f.write_open_tag_end();
        if let Err(e) = f.write_content(item) {
            return (f, Err(e));
        }
        f.write_end_tag(b"li");
        (f, Ok(()))
    };
    formatter
        .write_content(For { items, children: child })
        .expect("failed to write html");
    formatter.write_end_tag(b"ul");

    let buffer = formatter.into_inner();
    let as_str = std::str::from_utf8(buffer.as_ref()).expect("invalid utf-8");
    assert_eq!(as_str, "<ul><li id=\"a\">a</li><li id=\"b\">b</li><li id=\"c\">c</li></ul>");
}
