use bytes::BytesMut;
use rstml_component::func::{
    component, ComponentAttrs, FnArg, GenParam, GenParamKind, Pat, Signature, Ty,
};
use rstml_component::node::{DynBlock, Expr, Node, OpenTag, Stmt, TagName};
use rstml_component::render::{render, RenderValue};
use rstml_component::{HtmlFormatter, TemplateParser};

fn plain_signature(ident: &str, generics: Vec<GenParam>, inputs: Vec<FnArg>) -> Signature {
    Signature {
        constness: false,
        asyncness: false,
        unsafety: false,
        abi: false,
        ident: ident.as_bytes().to_vec(),
        generics,
        inputs,
    }
}

fn named_arg(name: &str, ty: Ty) -> FnArg {
    FnArg::Typed { pat: Pat::Ident { name: name.as_bytes().to_vec() }, ty }
}

fn div_with_dynamic(src: &str) -> Node {
    Node::Element {
        open_tag: OpenTag {
            name: TagName::Path { qualified: false, segments: vec![b"div".to_vec()] },
            attributes: vec![],
        },
        close_tag: Some(TagName::Path { qualified: false, segments: vec![b"div".to_vec()] }),
        children: vec![Node::Block {
            block: DynBlock::Valid {
                stmts: vec![Stmt::Expr {
                    expr: Expr::Verbatim { src: src.as_bytes().to_vec() },
                    semi: false,
                }],
            },
        }],
    }
}

fn render_body(nodes: Vec<Node>, env: Vec<RenderValue>) -> String {
    let template = TemplateParser::new().parse_nodes(Some(nodes));
    assert!(template.diagnostics.is_empty());
    let calls = template.emit();
    let mut formatter = HtmlFormatter::new(BytesMut::new());
    render(&mut formatter, &calls, &env).expect("formatting works");
    let buffer = formatter.into_inner();
    String::from_utf8(buffer.as_ref().to_vec()).expect("formatting works and produces valid utf-8")
}

#[test]
fn simple() {
    // #[component(pub MyComponent)] fn my_component(title: String)
    let sig = plain_signature(
        "my_component",
        vec![],
        vec![named_arg("title", Ty::Path { src: b"String".to_vec() })],
    );
    let attr = ComponentAttrs { vis: b"pub".to_vec(), name: b"MyComponent".to_vec() };
    let generated = component(attr, sig);

    assert!(generated.diagnostics.is_empty());
    assert_eq!(generated.ident, b"MyComponent".to_vec());
    assert_eq!(generated.fields.len(), 1);
    assert_eq!(generated.fields[0].name, b"title".to_vec());
    assert!(matches!(&generated.fields[0].ty, Ty::Path { src } if src == b"String"));
    assert!(generated.generics.is_empty());
    assert_eq!(generated.fn_ident, b"my_component".to_vec());

    // the function body `<div>{title}</div>` with title = "Hello there"
    let html = render_body(
        vec![div_with_dynamic("title")],
        vec![RenderValue::Content { text: "Hello there".to_string() }],
    );
    assert_eq!(html, r#"<div>Hello there</div>"#);
}

#[test]
fn with_impl_param() {
    // fn my_generic_component(
    //     title: impl Into<String>,
    //     descriptions: (impl Into<String>, impl Into<String>),
    // )
    let sig = plain_signature(
        "my_generic_component",
        vec![],
        vec![
            named_arg("title", Ty::ImplTrait { bounds: b"Into<String>".to_vec() }),
            named_arg(
                "descriptions",
                Ty::Tuple {
                    elems: vec![
                        Ty::ImplTrait { bounds: b"Into<String>".to_vec() },
                        Ty::ImplTrait { bounds: b"Into<String>".to_vec() },
                    ],
                },
            ),
        ],
    );
    let attr = ComponentAttrs { vis: Vec::new(), name: b"MyGenericComponent".to_vec() };
    let generated = component(attr, sig);

    assert!(generated.diagnostics.is_empty());
    // each opaque parameter type becomes a fresh generic named from the
    // uppercased parameter, with a marker appended on collision
    assert_eq!(generated.generics.len(), 3);
    assert_eq!(generated.generics[0].ident, b"TITLE".to_vec());
    assert_eq!(generated.generics[1].ident, b"DESCRIPTIONS".to_vec());
    assert_eq!(generated.generics[2].ident, b"DESCRIPTIONST".to_vec());
    assert!(generated.generics.iter().all(|g| g.kind == GenParamKind::Type));
    assert_eq!(generated.fields.len(), 2);
    assert!(matches!(&generated.fields[0].ty, Ty::Path { src } if src == b"TITLE"));
    match &generated.fields[1].ty {
        Ty::Tuple { elems } => {
            assert!(matches!(&elems[0], Ty::Path { src } if src == b"DESCRIPTIONS"));
            assert!(matches!(&elems[1], Ty::Path { src } if src == b"DESCRIPTIONST"));
        }
        other => panic!("expected a tuple field type, got {:?}", other),
    }

    // the function body with title = "Hello there", descriptions = ("desc1", "desc2")
    let html = render_body(
        vec![
            div_with_dynamic("title.into()"),
            div_with_dynamic("descriptions.0.into()"),
            div_with_dynamic("descriptions.1.into()"),
        ],
        vec![
            RenderValue::Content { text: "Hello there".to_string() },
            RenderValue::Content { text: "desc1".to_string() },
            RenderValue::Content { text: "desc2".to_string() },
        ],
    );
    assert_eq!(html, r#"<div>Hello there</div><div>desc1</div><div>desc2</div>"#);
}

#[test]
fn with_where_clause() {
    // fn where_generic_comp<T: Clone>(title: T) where T: Into<String>
    let sig = plain_signature(
        "where_generic_comp",
        vec![GenParam { kind: GenParamKind::Type, ident: b"T".to_vec(), bounds: b"Clone".to_vec() }],
        vec![named_arg("title", Ty::Path { src: b"T".to_vec() })],
    );
    let attr = ComponentAttrs { vis: Vec::new(), name: b"WhereGenericComp".to_vec() };
    let generated = component(attr, sig);

    assert!(generated.diagnostics.is_empty());
    assert_eq!(generated.generics.len(), 1);
    assert_eq!(generated.generics[0].ident, b"T".to_vec());
    assert_eq!(generated.fields.len(), 1);
    assert!(matches!(&generated.fields[0].ty, Ty::Path { src } if src == b"T"));

    let html = render_body(
        vec![div_with_dynamic("title.clone().into()")],
        vec![RenderValue::Content { text: "Hello there".to_string() }],
    );
    assert_eq!(html, r#"<div>Hello there</div>"#);
}

#[test]
fn mixed_args() {
    // fn mixed_generic_comp<T, C: HtmlContent>(
    //     title: T, description: impl Into<String>, children: C,
    // )
    let sig = plain_signature(
        "mixed_generic_comp",
        vec![
            GenParam { kind: GenParamKind::Type, ident: b"T".to_vec(), bounds: Vec::new() },
            GenParam {
                kind: GenParamKind::Type,
                ident: b"C".to_vec(),
                bounds: b"HtmlContent".to_vec(),
            },
        ],
        vec![
            named_arg("title", Ty::Path { src: b"T".to_vec() }),
            named_arg("description", Ty::ImplTrait { bounds: b"Into<String>".to_vec() }),
            named_arg("children", Ty::Path { src: b"C".to_vec() }),
        ],
    );
    let attr = ComponentAttrs { vis: Vec::new(), name: b"MixedGenericComp".to_vec() };
    let generated = component(attr, sig);

    assert!(generated.diagnostics.is_empty());
    assert_eq!(generated.generics.len(), 3);
    assert_eq!(generated.generics[2].ident, b"DESCRIPTION".to_vec());
    assert_eq!(generated.fields.len(), 3);
    assert_eq!(generated.fields[2].name, b"children".to_vec());

    // outer body: <div>{title}</div><div>{description}</div>{children},
    // with the inner component rendering <div>"Hello, "{name}</div>
    let inner = render_body(
        vec![Node::Element {
            open_tag: OpenTag {
                name: TagName::Path { qualified: false, segments: vec![b"div".to_vec()] },
                attributes: vec![],
            },
            close_tag: Some(TagName::Path { qualified: false, segments: vec![b"div".to_vec()] }),
            children: vec![
                Node::Text { value: b"Hello, ".to_vec() },
                Node::Block {
                    block: DynBlock::Valid {
                        stmts: vec![Stmt::Expr {
                            expr: Expr::Verbatim { src: b"name.into()".to_vec() },
                            semi: false,
                        }],
                    },
                },
            ],
        }],
        vec![RenderValue::Content { text: "Test".to_string() }],
    );
    assert_eq!(inner, "<div>Hello, Test</div>");

    let html = render_body(
        vec![
            div_with_dynamic("title.into()"),
            div_with_dynamic("description.into()"),
            Node::Block {
                block: DynBlock::Valid {
                    stmts: vec![Stmt::Expr {
                        expr: Expr::Verbatim { src: b"children".to_vec() },
                        semi: false,
                    }],
                },
            },
        ],
        vec![
            RenderValue::Content { text: "Hello there".to_string() },
            RenderValue::Content { text: "desc".to_string() },
            RenderValue::Raw { bytes: inner.into_bytes() },
        ],
    );
    assert_eq!(html, r#"<div>Hello there</div><div>desc</div><div>Hello, Test</div>"#);
}
