use bytes::BytesMut;
use rstml_component::node::{
    default_empty_elements, AttrValue, Diagnostic, DynBlock, Expr, KeyedAttribute, Node,
    NodeAttribute, OpenTag, Stmt, TagName,
};
use rstml_component::render::{render, RenderError, RenderValue};
use rstml_component::template::{AttributeValue, Children, Template, TemplateWriteInstruction};
use rstml_component::{HtmlFormatter, TemplateParser};

fn simple_name(name: &str) -> TagName {
    TagName::Path { qualified: false, segments: vec![name.as_bytes().to_vec()] }
}

fn el(name: &str, attributes: Vec<NodeAttribute>, children: Vec<Node>) -> Node {
    Node::Element {
        open_tag: OpenTag { name: simple_name(name), attributes },
        close_tag: None,
        children,
    }
}

fn keyed(name: &str, value: AttrValue) -> NodeAttribute {
    NodeAttribute::Attribute {
        attribute: KeyedAttribute { key: simple_name(name), value },
    }
}

fn lower(nodes: Vec<Node>) -> Template {
    TemplateParser::new().parse_nodes(Some(nodes))
}

fn to_string(template: &Template, env: Vec<RenderValue>) -> String {
    let calls = template.emit();
    let mut formatter = HtmlFormatter::new(BytesMut::new());
    render(&mut formatter, &calls, &env).expect("failed to write html");
    let buffer = formatter.into_inner();
    String::from_utf8(buffer.as_ref().to_vec()).expect("invalid utf-8")
}

#[test]
fn plain_element_round_trips() {
    // an element with no attributes and no children: exactly open, end, close
    let template = lower(vec![el("div", vec![], vec![])]);
    assert!(template.diagnostics.is_empty());
    assert_eq!(template.instructions.len(), 3);
    assert!(matches!(&template.instructions[0], TemplateWriteInstruction::OpenTagStart { .. }));
    assert!(matches!(&template.instructions[1], TemplateWriteInstruction::OpenTagEnd));
    assert!(matches!(&template.instructions[2], TemplateWriteInstruction::EndTag { .. }));
}

#[test]
fn void_tags_self_close() {
    // `<hr>` and `<hr/>` both lower to open + self-close, never an end tag
    for close in [false, true] {
        let node = Node::Element {
            open_tag: OpenTag { name: simple_name("hr"), attributes: vec![] },
            close_tag: if close { Some(simple_name("hr")) } else { None },
            children: vec![],
        };
        let template = lower(vec![node]);
        assert!(template.diagnostics.is_empty());
        assert_eq!(template.instructions.len(), 2);
        assert!(matches!(&template.instructions[0], TemplateWriteInstruction::OpenTagStart { .. }));
        assert!(matches!(&template.instructions[1], TemplateWriteInstruction::SelfCloseTag));
        assert_eq!(to_string(&template, vec![]), "<hr />");
    }
}

#[test]
fn void_tag_with_children_degrades() {
    // children on a void element: one diagnostic, but still a valid self-close
    let template = lower(vec![el("br", vec![], vec![Node::Text { value: b"x".to_vec() }])]);
    assert_eq!(template.diagnostics, vec![Diagnostic::EmptyElementWithChildren]);
    assert_eq!(template.instructions.len(), 2);
    assert_eq!(to_string(&template, vec![]), "<br />");
}

#[test]
fn all_void_tags_are_configured() {
    let names: Vec<String> = default_empty_elements()
        .into_iter()
        .map(|n| String::from_utf8(n).unwrap())
        .collect();
    assert_eq!(
        names,
        ["area", "base", "br", "col", "embed", "hr", "img", "input", "link", "meta", "param",
            "source", "track", "wbr"]
    );
}

#[test]
fn fragments_are_transparent() {
    // `<>{a}{b}</>` yields the same instructions as `{a}{b}`
    let block = |src: &str| Node::Block {
        block: DynBlock::Valid {
            stmts: vec![Stmt::Expr {
                expr: Expr::Verbatim { src: src.as_bytes().to_vec() },
                semi: false,
            }],
        },
    };
    let wrapped = lower(vec![Node::Fragment { children: vec![block("a"), block("b")] }]);
    let bare = lower(vec![block("a"), block("b")]);
    assert_eq!(wrapped.instructions.len(), bare.instructions.len());
    let env = || vec![
        RenderValue::Content { text: "one".to_string() },
        RenderValue::Content { text: "two".to_string() },
    ];
    assert_eq!(to_string(&wrapped, env()), to_string(&bare, env()));
    assert_eq!(to_string(&wrapped, env()), "onetwo");
}

#[test]
fn presence_attribute_has_no_value() {
    // `<input disabled>` renders as ` disabled`, with no `=""`
    let template = lower(vec![el("input", vec![keyed("disabled", AttrValue::Missing)], vec![])]);
    assert!(template.diagnostics.is_empty());
    assert!(matches!(&template.instructions[1], TemplateWriteInstruction::AttributeName { .. }));
    assert!(!template
        .instructions
        .iter()
        .any(|i| matches!(i, TemplateWriteInstruction::AttributeValue { .. })));
    assert_eq!(to_string(&template, vec![]), "<input disabled />");
}

#[test]
fn dynamic_element_names_are_rejected() {
    let node = Node::Element {
        open_tag: OpenTag { name: TagName::Block, attributes: vec![] },
        close_tag: None,
        children: vec![],
    };
    let template = lower(vec![node]);
    assert_eq!(template.diagnostics, vec![Diagnostic::DynamicElement]);
    assert!(template.instructions.is_empty());
    assert_eq!(
        template.diagnostics[0].message(),
        "Dynamic elements are not supported. Use a component or an HTML element instead."
    );
}

#[test]
fn attribute_bindings_are_rejected() {
    let template = lower(vec![el("div", vec![keyed("on", AttrValue::Binding)], vec![])]);
    assert_eq!(template.diagnostics, vec![Diagnostic::AttributeBinding]);
    // the attribute name is still written, the binding value is dropped
    assert!(matches!(&template.instructions[1], TemplateWriteInstruction::AttributeName { .. }));
}

#[test]
fn children_prop_is_always_rejected() {
    // a component prop literally named `children` is rejected whatever its value
    let values = [
        AttrValue::Missing,
        AttrValue::Value { value: Expr::StrLit { value: b"x".to_vec() } },
        AttrValue::Value { value: Expr::Verbatim { src: b"expr".to_vec() } },
    ];
    for value in values {
        let node = el("Comp", vec![keyed("children", value)], vec![]);
        let template = lower(vec![node]);
        assert_eq!(template.diagnostics, vec![Diagnostic::ReservedChildrenProp]);
        match &template.instructions[0] {
            TemplateWriteInstruction::Component { component } => {
                assert!(component.props.is_empty());
            }
            other => panic!("expected a component, got {:?}", other),
        }
    }
}

#[test]
fn component_prop_names_normalize() {
    // `data-my  value` style punctuated names: whitespace stripped, `-` to `_`
    let punctuated = NodeAttribute::Attribute {
        attribute: KeyedAttribute {
            key: TagName::Punctuated { text: b"data-my - value".to_vec() },
            value: AttrValue::Missing,
        },
    };
    let template = lower(vec![el("Comp", vec![punctuated], vec![])]);
    assert!(template.diagnostics.is_empty());
    match &template.instructions[0] {
        TemplateWriteInstruction::Component { component } => {
            assert_eq!(component.props.len(), 1);
            assert_eq!(component.props[0].name, b"data_my_value".to_vec());
            // a prop with no value defaults to boolean true
            assert!(matches!(component.props[0].value, Expr::BoolLit { value: true }));
        }
        other => panic!("expected a component, got {:?}", other),
    }
}

#[test]
fn invalid_prop_names_are_rejected() {
    // normalizing `1-bad` gives `1_bad`, which is no legal identifier
    let punctuated = NodeAttribute::Attribute {
        attribute: KeyedAttribute {
            key: TagName::Punctuated { text: b"1-bad".to_vec() },
            value: AttrValue::Missing,
        },
    };
    let template = lower(vec![el("Comp", vec![punctuated], vec![])]);
    assert_eq!(
        template.diagnostics,
        vec![Diagnostic::InvalidPropName { name: b"1_bad".to_vec() }]
    );
}

#[test]
fn non_keyed_component_attributes_are_rejected() {
    let block_attr = NodeAttribute::Block {
        block: DynBlock::Valid { stmts: vec![] },
    };
    let template = lower(vec![el("Comp", vec![block_attr], vec![])]);
    assert_eq!(template.diagnostics, vec![Diagnostic::NonKeyedComponentAttribute]);
}

#[test]
fn component_children_template_and_empty() {
    // ordinary children become a nested template
    let node = el("Comp", vec![], vec![el("div", vec![], vec![])]);
    let template = lower(vec![node]);
    match &template.instructions[0] {
        TemplateWriteInstruction::Component { component } => {
            assert!(matches!(component.children, Some(Children::Template { .. })));
        }
        other => panic!("expected a component, got {:?}", other),
    }
    // children that lower to nothing synthesize no children prop at all
    let node = el("Comp", vec![], vec![Node::Fragment { children: vec![] }]);
    let template = lower(vec![node]);
    match &template.instructions[0] {
        TemplateWriteInstruction::Component { component } => {
            assert!(component.children.is_none());
        }
        other => panic!("expected a component, got {:?}", other),
    }
}

#[test]
fn constant_attribute_values_stay_constant() {
    let template = lower(vec![el(
        "div",
        vec![keyed("class", AttrValue::Value { value: Expr::StrLit { value: b"a<b".to_vec() } })],
        vec![],
    )]);
    match &template.instructions[2] {
        TemplateWriteInstruction::AttributeValue { value: AttributeValue::Constant { value } } => {
            assert_eq!(value, &b"a<b".to_vec());
        }
        other => panic!("expected a constant attribute value, got {:?}", other),
    }
    // and the attribute-value context escapes it
    assert_eq!(to_string(&template, vec![]), "<div class=\"a&lt;b\"></div>");
}

#[test]
fn lowering_is_idempotent() {
    let make = || vec![
        Node::Doctype { value: b"html".to_vec() },
        el("div", vec![keyed("a", AttrValue::Missing)], vec![Node::Text { value: b"t".to_vec() }]),
    ];
    let first = lower(make());
    let second = lower(make());
    assert_eq!(to_string(&first, vec![]), to_string(&second, vec![]));
    assert_eq!(first.instructions.len(), second.instructions.len());
    assert_eq!(first.diagnostics, second.diagnostics);
}

#[test]
fn parse_keeps_tokenizer_diagnostics_first() {
    let parser_diags = vec![Diagnostic::Parse { message: b"unexpected token".to_vec() }];
    let nodes = vec![Node::Element {
        open_tag: OpenTag { name: TagName::Block, attributes: vec![] },
        close_tag: None,
        children: vec![],
    }];
    let template = TemplateParser::new().parse(Some(nodes), parser_diags);
    assert_eq!(template.diagnostics.len(), 2);
    assert!(matches!(&template.diagnostics[0], Diagnostic::Parse { .. }));
    assert!(matches!(&template.diagnostics[1], Diagnostic::DynamicElement));
}

#[test]
fn render_reports_environment_mismatches() {
    let dynamic = vec![Node::Block {
        block: DynBlock::Valid {
            stmts: vec![Stmt::Expr {
                expr: Expr::Verbatim { src: b"x".to_vec() },
                semi: false,
            }],
        },
    }];
    let template = lower(dynamic);
    let calls = template.emit();

    let mut formatter = HtmlFormatter::new(BytesMut::new());
    assert_eq!(render(&mut formatter, &calls, &vec![]), Err(RenderError::MissingValue));

    let mut formatter = HtmlFormatter::new(BytesMut::new());
    let wrong = vec![RenderValue::AttrValue { text: "x".to_string() }];
    assert_eq!(render(&mut formatter, &calls, &wrong), Err(RenderError::WrongValue));

    let mut formatter = HtmlFormatter::new(BytesMut::new());
    let extra = vec![
        RenderValue::Content { text: "x".to_string() },
        RenderValue::Content { text: "y".to_string() },
    ];
    assert_eq!(render(&mut formatter, &calls, &extra), Err(RenderError::ExtraValue));

    // a whole dynamic attribute set has no runtime writer to replay against
    let attrs = lower(vec![el(
        "div",
        vec![NodeAttribute::Block { block: DynBlock::Valid { stmts: vec![] } }],
        vec![],
    )]);
    let calls = attrs.emit();
    let mut formatter = HtmlFormatter::new(BytesMut::new());
    assert_eq!(
        render(&mut formatter, &calls, &vec![]),
        Err(RenderError::UnsupportedDynamicAttributes)
    );
}

#[test]
fn qualified_paths_are_components() {
    let node = Node::Element {
        open_tag: OpenTag {
            name: TagName::Path {
                qualified: false,
                segments: vec![b"widgets".to_vec(), b"Button".to_vec()],
            },
            attributes: vec![],
        },
        close_tag: None,
        children: vec![],
    };
    let template = lower(vec![node]);
    assert!(template.diagnostics.is_empty());
    assert!(matches!(&template.instructions[0], TemplateWriteInstruction::Component { .. }));
}
