use vstd::prelude::*;

use crate::fmt::HtmlContent;
use crate::func::{gen_params_view, GenParam, GenParamV};

verus! {

/// A typed component: a data-carrying value that turns into formattable
/// content.  Selection happens at lowering time, so no run-time dispatch is
/// needed.
pub trait HtmlComponent: Sized {
    type Content: HtmlContent;

    /// The content this component turns into.
    spec fn content_spec(self) -> Self::Content;

    fn into_content(self) -> (r: Self::Content)
        ensures
            r == self.content_spec(),
    ;
}

/// What the derive input looks like to the component derivation: a struct
/// with its fields' shape, or any other item.
#[derive(Debug)]
pub enum Item {
    Struct { ident: Vec<u8>, generics: Vec<GenParam>, fields: FieldsKind },
    Other { src: Vec<u8> },
}

/// Ghost mirror of [`Item`].
pub enum ItemV {
    Struct { ident: Seq<u8>, generics: Seq<GenParamV>, fields: FieldsKind },
    Other { src: Seq<u8> },
}

/// The view of a derive input.
pub open spec fn item_view(i: Item) -> ItemV {
    match i {
        Item::Struct { ident, generics, fields } => ItemV::Struct {
            ident: ident@,
            generics: gen_params_view(generics@),
            fields,
        },
        Item::Other { src } => ItemV::Other { src: src@ },
    }
}

/// The shape of a struct's fields.
#[derive(Clone, Copy, PartialEq, Eq, Structural, Debug)]
pub enum FieldsKind {
    Named,
    Unnamed,
    Unit,
}

/// Why a derive input was rejected.
#[derive(Clone, Copy, PartialEq, Eq, Structural, Debug)]
pub enum DeriveDiagnostic {
    /// "Derived `HtmlComponent`s must be structs"
    NotAStruct,
    /// "Derived `HtmlComponent`s cannot have tuple fields"
    TupleFields,
}

/// What the component derivation produces: a rejection, or the identity
/// implementation of [`HtmlComponent`] for the named struct.
#[derive(Debug)]
pub enum DeriveOutput {
    Rejected { diag: DeriveDiagnostic },
    Impl { ident: Vec<u8>, generics: Vec<GenParam> },
}

/// Ghost mirror of [`DeriveOutput`].
pub enum DeriveOutputV {
    Rejected { diag: DeriveDiagnostic },
    Impl { ident: Seq<u8>, generics: Seq<GenParamV> },
}

/// The view of a derive outcome.
pub open spec fn derive_output_view(o: DeriveOutput) -> DeriveOutputV {
    match o {
        DeriveOutput::Rejected { diag } => DeriveOutputV::Rejected { diag },
        DeriveOutput::Impl { ident, generics } => DeriveOutputV::Impl {
            ident: ident@,
            generics: gen_params_view(generics@),
        },
    }
}

/// What deriving [`HtmlComponent`] yields: only structs are accepted, tuple
/// structs are rejected, and an accepted struct gets the identity
/// implementation with its own generics.
pub open spec fn derive_spec(item: ItemV) -> DeriveOutputV {
    match item {
        ItemV::Other { src } => DeriveOutputV::Rejected { diag: DeriveDiagnostic::NotAStruct },
        ItemV::Struct { ident, generics, fields } => {
            if fields == FieldsKind::Unnamed {
                DeriveOutputV::Rejected { diag: DeriveDiagnostic::TupleFields }
            } else {
                DeriveOutputV::Impl { ident, generics }
            }
        },
    }
}

/// Derives the [`HtmlComponent`] identity implementation for a struct.
pub fn derive_html_component(input: Item) -> (r: DeriveOutput)
    ensures
        derive_output_view(r) == derive_spec(item_view(input)),
{
    match input {
        Item::Other { src } => DeriveOutput::Rejected { diag: DeriveDiagnostic::NotAStruct },
        Item::Struct { ident, generics, fields } => {
            if matches!(fields, FieldsKind::Unnamed) {
                DeriveOutput::Rejected { diag: DeriveDiagnostic::TupleFields }
            } else {
                DeriveOutput::Impl { ident, generics }
            }
        },
    }
}

} // verus!
