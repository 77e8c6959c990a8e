use rstml_component::component::{
    derive_html_component, DeriveDiagnostic, DeriveOutput, FieldsKind, Item,
};
use rstml_component::func::{create_not_used_ident, GenParam, GenParamKind};

#[test]
fn derive_accepts_named_and_unit_structs() {
    for fields in [FieldsKind::Named, FieldsKind::Unit] {
        let item = Item::Struct {
            ident: b"Card".to_vec(),
            generics: vec![GenParam {
                kind: GenParamKind::Type,
                ident: b"T".to_vec(),
                bounds: Vec::new(),
            }],
            fields,
        };
        match derive_html_component(item) {
            DeriveOutput::Impl { ident, generics } => {
                assert_eq!(ident, b"Card".to_vec());
                assert_eq!(generics.len(), 1);
            }
            DeriveOutput::Rejected { diag } => panic!("unexpected rejection: {:?}", diag),
        }
    }
}

#[test]
fn derive_rejects_tuple_structs_and_other_items() {
    let tuple = Item::Struct {
        ident: b"Pair".to_vec(),
        generics: vec![],
        fields: FieldsKind::Unnamed,
    };
    assert!(matches!(
        derive_html_component(tuple),
        DeriveOutput::Rejected { diag: DeriveDiagnostic::TupleFields }
    ));

    let not_a_struct = Item::Other { src: b"enum E {}".to_vec() };
    assert!(matches!(
        derive_html_component(not_a_struct),
        DeriveOutput::Rejected { diag: DeriveDiagnostic::NotAStruct }
    ));
}

#[test]
fn fresh_idents_append_markers_until_unique() {
    let type_param = |name: &str| GenParam {
        kind: GenParamKind::Type,
        ident: name.as_bytes().to_vec(),
        bounds: Vec::new(),
    };
    let used = vec![type_param("V"), type_param("VT")];
    assert_eq!(create_not_used_ident(&used, None), b"VTT".to_vec());
    assert_eq!(create_not_used_ident(&used, Some(b"W".to_vec())), b"W".to_vec());
    // lifetimes do not collide with type parameter names
    let lifetime = GenParam {
        kind: GenParamKind::Lifetime,
        ident: b"V".to_vec(),
        bounds: Vec::new(),
    };
    assert_eq!(create_not_used_ident(&vec![lifetime], None), b"V".to_vec());
}
