use bytes::BytesMut;
use rstml_component::func::{
    component, ComponentAttrs, FnArg, FuncDiagnostic, Pat, Signature, Ty,
};
use rstml_component::node::{DynBlock, Expr, Node, OpenTag, Stmt, TagName};
use rstml_component::render::{render, RenderValue};
use rstml_component::{HtmlFormatter, TemplateParser};

fn signature(ident: &str, inputs: Vec<FnArg>) -> Signature {
    Signature {
        constness: false,
        asyncness: false,
        unsafety: false,
        abi: false,
        ident: ident.as_bytes().to_vec(),
        generics: vec![],
        inputs,
    }
}

fn div_body(expr_src: &str) -> Vec<Node> {
    vec![Node::Element {
        open_tag: OpenTag {
            name: TagName::Path { qualified: false, segments: vec![b"div".to_vec()] },
            attributes: vec![],
        },
        close_tag: Some(TagName::Path { qualified: false, segments: vec![b"div".to_vec()] }),
        children: vec![Node::Block {
            block: DynBlock::Valid {
                stmts: vec![Stmt::Expr {
                    expr: Expr::Verbatim { src: expr_src.as_bytes().to_vec() },
                    semi: false,
                }],
            },
        }],
    }]
}

fn render_with(nodes: Vec<Node>, value: &str) -> String {
    let template = TemplateParser::new().parse_nodes(Some(nodes));
    assert!(template.diagnostics.is_empty());
    let calls = template.emit();
    let mut formatter = HtmlFormatter::new(BytesMut::new());
    render(&mut formatter, &calls, &vec![RenderValue::Content { text: value.to_string() }])
        .expect("formatting works");
    let buffer = formatter.into_inner();
    String::from_utf8(buffer.as_ref().to_vec()).expect("formatting works and produces valid utf-8")
}

#[test]
fn test_utils() {
    let expected = r#"<div>Hello there</div>"#;

    // #[component(pub MyComponent)] fn my_component(title: String)
    let generated = component(
        ComponentAttrs { vis: b"pub".to_vec(), name: b"MyComponent".to_vec() },
        signature("my_component", vec![FnArg::Typed {
            pat: Pat::Ident { name: b"title".to_vec() },
            ty: Ty::Path { src: b"String".to_vec() },
        }]),
    );
    assert!(generated.diagnostics.is_empty());
    let out = render_with(div_body("title"), "Hello there");
    assert_eq!(out, expected);

    // #[component(MyGenericComponent)] fn my_generic_component(title: impl Into<String>)
    let generated = component(
        ComponentAttrs { vis: Vec::new(), name: b"MyGenericComponent".to_vec() },
        signature("my_generic_component", vec![FnArg::Typed {
            pat: Pat::Ident { name: b"title".to_vec() },
            ty: Ty::ImplTrait { bounds: b"Into<String>".to_vec() },
        }]),
    );
    assert!(generated.diagnostics.is_empty());
    assert_eq!(generated.generics.len(), 1);
    assert_eq!(generated.generics[0].ident, b"TITLE".to_vec());
    let generic_out = render_with(div_body("title.into()"), "Hello there");
    assert_eq!(generic_out, expected);

    // #[component(MyGroupComponent)] fn my_group_component(Foo(title): Foo):
    // a destructuring parameter pattern is rejected with a diagnostic and the
    // parameter is skipped
    let generated = component(
        ComponentAttrs { vis: Vec::new(), name: b"MyGroupComponent".to_vec() },
        signature("my_group_component", vec![FnArg::Typed {
            pat: Pat::Other { src: b"Foo(title)".to_vec() },
            ty: Ty::Path { src: b"Foo".to_vec() },
        }]),
    );
    assert_eq!(generated.diagnostics, vec![FuncDiagnostic::UnsupportedPattern]);
    assert!(generated.fields.is_empty());
    // the function itself still renders its body
    let group_out = render_with(div_body("title"), "Hello there");
    assert_eq!(group_out, expected);
}
