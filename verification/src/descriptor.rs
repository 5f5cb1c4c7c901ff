//! A record as the host's parser describes it.
//!
//! The descriptor holds in plain values what extraction reads of a record:
//! its name, its shape with the span of the construct that decides the shape,
//! and its named fields. `RecordDescriptor::from_syn` takes these out of a
//! parsed derive input.

use vstd::prelude::*;
use proc_macro2::Span;
use syn::DeriveInput;
use crate::ast::{
    declared_fields, record_ident, record_span, shape_of, syn_field_ident, syn_field_type,
    syn_fields, syn_ident, syn_shape, syn_span,
};
use crate::diagnostics::{Diagnostic, DiagnosticView};
use crate::structs::{field_views, FieldSchema, FieldView};

verus! {

/// The kinds of record that a descriptor can stand for, each with the span of
/// the construct that makes it that kind.
#[derive(Clone, Copy, Debug)]
pub enum Shape {
    /// `struct P { x: T }`, with the span of the braced field list.
    Named { field_list: Span },
    /// `struct P(T, U);`, with the span of the parenthesised field list.
    Tuple { field_list: Span },
    /// `struct P;`
    Marker,
    /// `enum P { .. }`, with the span of the keyword.
    Sum { keyword: Span },
    /// `union P { .. }`, with the span of the keyword.
    Union { keyword: Span },
}

/// A record as the host's parser describes it, in plain values.
#[derive(Debug)]
pub struct RecordDescriptor {
    /// The record's name.
    pub name: String,
    /// The span of the record as a whole.
    pub span: Span,
    pub shape: Shape,
    /// The named fields in declaration order; read for `Shape::Named` only.
    pub fields: Vec<FieldSchema>,
}

/// The diagnostic that a record of shape `shape` is rejected with, `record`
/// being the span of the whole record; `None` for the one shape that is
/// accepted.
pub open spec fn rejection(shape: Shape, record: Span) -> Option<DiagnosticView> {
    match shape {
        Shape::Named { .. } => None,
        Shape::Tuple { field_list } => Some(
            DiagnosticView { message: "tuple-style records not supported"@, location: field_list },
        ),
        Shape::Marker => Some(
            DiagnosticView { message: "marker records not supported"@, location: record },
        ),
        Shape::Sum { keyword } => Some(
            DiagnosticView { message: "sum types not supported"@, location: keyword },
        ),
        Shape::Union { keyword } => Some(
            DiagnosticView {
                message: "overlapping-storage aggregates not supported"@,
                location: keyword,
            },
        ),
    }
}

/// The field that a field of the syntax tree stands for, if it has a name.
pub open spec fn named_field(field: syn::Field) -> Option<FieldView> {
    match syn_field_ident(field) {
        Some(ident) => Some(FieldView { ident, type_ref: syn_field_type(field) }),
        None => None,
    }
}

/// Every field of `fields` has a name.
pub open spec fn all_named(fields: Seq<syn::Field>) -> bool {
    forall|i: int| 0 <= i < fields.len() ==> (#[trigger] named_field(fields[i])) is Some
}

/// The fields that the fields of the syntax tree stand for, in the same order.
pub open spec fn named_fields(fields: Seq<syn::Field>) -> Seq<FieldView> {
    Seq::new(fields.len(), |i: int| named_field(fields[i])->0)
}

/// The shape under which the item in `ast` is extracted: its own, but for a
/// braced field list that holds a positional field, which counts as a tuple.
pub open spec fn described_shape(ast: DeriveInput) -> Shape {
    match syn_shape(ast) {
        Shape::Named { field_list } => if all_named(syn_fields(ast)) {
            Shape::Named { field_list }
        } else {
            Shape::Tuple { field_list }
        },
        shape => shape,
    }
}

/// The fields under which the item in `ast` is extracted: those that it
/// declares if its shape is that of a named-field record, else none.
pub open spec fn described_fields(ast: DeriveInput) -> Seq<FieldView> {
    if described_shape(ast) is Named {
        named_fields(syn_fields(ast))
    } else {
        Seq::empty()
    }
}

impl Shape {
    /// The span of the construct that makes a record one of this shape: the
    /// field list, the record itself (its span is `record`), or the keyword.
    pub open spec fn construct(self, record: Span) -> Span {
        match self {
            Shape::Named { field_list } => field_list,
            Shape::Tuple { field_list } => field_list,
            Shape::Marker => record,
            Shape::Sum { keyword } => keyword,
            Shape::Union { keyword } => keyword,
        }
    }

    /// The diagnostic for this shape, if it is one that cannot be given a
    /// builder. `record` is the span of the whole record.
    pub fn reject(self, record: Span) -> (res: Option<Diagnostic>)
        ensures
            match rejection(self, record) {
                None => res is None,
                Some(diagnostic) => res matches Some(e) && e@ == diagnostic,
            },
    {
        match self {
            Shape::Named { .. } => None,
            Shape::Tuple { field_list } => Some(
                Diagnostic::new(field_list, "tuple-style records not supported"),
            ),
            Shape::Marker => Some(Diagnostic::new(record, "marker records not supported")),
            Shape::Sum { keyword } => Some(Diagnostic::new(keyword, "sum types not supported")),
            Shape::Union { keyword } => Some(
                Diagnostic::new(keyword, "overlapping-storage aggregates not supported"),
            ),
        }
    }
}

impl RecordDescriptor {
    /// Describes the item in `ast` in plain values. A braced field list with a
    /// positional field in it is described as a tuple.
    pub fn from_syn(ast: &DeriveInput) -> (d: RecordDescriptor)
        ensures
            d.name@ == syn_ident(*ast),
            d.span == syn_span(*ast),
            d.shape == described_shape(*ast),
            field_views(d.fields@) == described_fields(*ast),
    {
        let name = record_ident(ast);
        let span = record_span(ast);
        let shape = shape_of(ast);
        let mut fields: Vec<FieldSchema> = Vec::new();
        if let Shape::Named { field_list } = shape {
            let declared = declared_fields(ast);
            let mut i: usize = 0;
            while i < declared.len()
                invariant
                    name@ == syn_ident(*ast),
                    span == syn_span(*ast),
                    syn_shape(*ast) == (Shape::Named { field_list }),
                    i <= declared.len(),
                    declared@.len() == syn_fields(*ast).len(),
                    forall|k: int|
                        0 <= k < declared@.len() ==> *(#[trigger] declared@[k]) == syn_fields(
                            *ast,
                        )[k],
                    fields.len() == i,
                    forall|k: int|
                        0 <= k < i ==> named_field(syn_fields(*ast)[k]) == Some(
                            (#[trigger] fields[k])@,
                        ),
                decreases declared.len() - i,
            {
                match FieldSchema::get_field_from_syn(declared[i]) {
                    Some(field) => {
                        fields.push(field);
                    },
                    None => {
                        return RecordDescriptor {
                            name,
                            span,
                            shape: Shape::Tuple { field_list },
                            fields: Vec::new(),
                        };
                    },
                }
                i += 1;
            }
            assert forall|k: int| 0 <= k < syn_fields(*ast).len() implies (#[trigger] named_field(
                syn_fields(*ast)[k],
            )) is Some by {
                assert(named_field(syn_fields(*ast)[k]) == Some(fields[k]@));
            }
        }
        RecordDescriptor { name, span, shape, fields }
    }
}

} // verus!
