//! Reading a parsed derive input.
//!
//! A `syn::DeriveInput` is opaque to the verifier. What the extraction reads
//! of it is given a name here, and each reader below is believed to return
//! the named value. Nothing else in the library touches the syntax tree.

use vstd::prelude::*;
use proc_macro2::Span;
use quote::ToTokens;
use syn::spanned::Spanned;
use syn::{Data, DeriveInput, Fields};
use crate::descriptor::Shape;

verus! {

/// `syn::DeriveInput`, the syntax tree of the item that a derive is applied to.
#[verifier::external_type_specification]
#[verifier::external_body]
pub struct ExDeriveInput(syn::DeriveInput);

/// `syn::Field`, one field of a struct, a variant or a union.
#[verifier::external_type_specification]
#[verifier::external_body]
pub struct ExField(syn::Field);

/// The kind of item that `ast` holds, with the span of the construct that
/// makes it that kind.
pub uninterp spec fn syn_shape(ast: DeriveInput) -> Shape;

/// The text of the name of the item that `ast` holds.
pub uninterp spec fn syn_ident(ast: DeriveInput) -> Seq<char>;

/// The span of the whole item that `ast` holds.
pub uninterp spec fn syn_span(ast: DeriveInput) -> Span;

/// The fields that `ast` declares, in declaration order.
pub uninterp spec fn syn_fields(ast: DeriveInput) -> Seq<syn::Field>;

/// The text of the name of `field`, if it has one.
pub uninterp spec fn syn_field_ident(field: syn::Field) -> Option<Seq<char>>;

/// The text of the declared type of `field`.
pub uninterp spec fn syn_field_type(field: syn::Field) -> Seq<char>;

/// Tells the variants of `syn::Data` and of `syn::Fields` apart. With each
/// goes a span that the tree holds: for a field list that of its delimiters,
/// which `proc_macro2::extra::DelimSpan::join` gives as one span over the
/// whole group, for an enum or a union that of the keyword token. Claimed:
/// the result is a function of the tree.
#[verifier::external_body]
pub(crate) fn shape_of(ast: &DeriveInput) -> (shape: Shape)
    ensures
        shape == syn_shape(*ast),
{
    match &ast.data {
        Data::Struct(data) => match &data.fields {
            Fields::Named(list) => Shape::Named { field_list: list.brace_token.span.join() },
            Fields::Unnamed(list) => Shape::Tuple { field_list: list.paren_token.span.join() },
            Fields::Unit => Shape::Marker,
        },
        Data::Enum(data) => Shape::Sum { keyword: data.enum_token.span },
        Data::Union(data) => Shape::Union { keyword: data.union_token.span },
    }
}

/// `to_string` on the `ident` of a `syn::DeriveInput`. Claimed: the text is a
/// function of the tree.
#[verifier::external_body]
pub(crate) fn record_ident(ast: &DeriveInput) -> (name: String)
    ensures
        name@ == syn_ident(*ast),
{
    ast.ident.to_string()
}

/// `syn::spanned::Spanned::span` on a whole `syn::DeriveInput`: the span from
/// its first token to its last where the token library can join spans, else
/// the span of its first token. Claimed: the span is a function of the tree.
#[verifier::external_body]
pub(crate) fn record_span(ast: &DeriveInput) -> (span: Span)
    ensures
        span == syn_span(*ast),
{
    ast.span()
}

/// `syn::Fields::iter` on the fields of a struct, and
/// `syn::punctuated::Punctuated::iter` on those of a union; an enum declares
/// no fields of its own. Claimed: the fields come in declaration order, and
/// they are a function of the tree.
#[verifier::external_body]
pub(crate) fn declared_fields<'a>(ast: &'a DeriveInput) -> (fields: Vec<&'a syn::Field>)
    ensures
        fields@.len() == syn_fields(*ast).len(),
        forall|i: int| 0 <= i < fields@.len() ==> *(#[trigger] fields@[i]) == syn_fields(*ast)[i],
{
    match &ast.data {
        Data::Struct(data) => data.fields.iter().collect(),
        Data::Enum(_) => Vec::new(),
        Data::Union(data) => data.fields.named.iter().collect(),
    }
}

/// `to_string` on the `ident` of a `syn::Field`, which a positional field
/// does not have. Claimed: whether there is a name, and its text, are
/// functions of the field.
#[verifier::external_body]
pub(crate) fn field_ident(field: &syn::Field) -> (name: Option<String>)
    ensures
        match syn_field_ident(*field) {
            Some(text) => name matches Some(s) && s@ == text,
            None => name is None,
        },
{
    field.ident.as_ref().map(ToString::to_string)
}

/// `quote::ToTokens::to_token_stream` on the `ty` of a `syn::Field`, printed
/// with `to_string`. Claimed: the text is a function of the field.
#[verifier::external_body]
pub(crate) fn field_type(field: &syn::Field) -> (text: String)
    ensures
        text@ == syn_field_type(*field),
{
    field.ty.to_token_stream().to_string()
}

} // verus!
