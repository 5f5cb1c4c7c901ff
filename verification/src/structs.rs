//! The schema of a record, and its extraction from a record descriptor or
//! from a parsed derive input.

use vstd::prelude::*;
use syn::DeriveInput;
use crate::ast::{field_ident, field_type, syn_ident, syn_span};
use crate::descriptor::{
    described_fields, described_shape, named_field, rejection, RecordDescriptor,
};
use crate::diagnostics::{Diagnostic, DiagnosticView};

verus! {

/// What a field is, mathematically: its name and the text of its declared type.
pub struct FieldView {
    pub ident: Seq<char>,
    pub type_ref: Seq<char>,
}

/// What a schema is, mathematically: the record's name and its fields in
/// declaration order.
pub struct StructView {
    pub name: Seq<char>,
    pub fields: Seq<FieldView>,
}

/// One named field of a record. The type is never looked into: its text is
/// carried into the generated code as it stands.
#[derive(Debug, PartialEq, Eq)]
pub struct FieldSchema {
    pub field_ident: String,
    pub field_type: String,
}

/// The schema of a named-field record.
#[derive(Debug, PartialEq, Eq)]
pub struct Struct {
    pub ident: String,
    pub fields: Vec<FieldSchema>,
}

impl View for FieldSchema {
    type V = FieldView;

    open spec fn view(&self) -> FieldView {
        FieldView { ident: self.field_ident@, type_ref: self.field_type@ }
    }
}

/// The views of `fields`, in the same order.
pub open spec fn field_views(fields: Seq<FieldSchema>) -> Seq<FieldView> {
    fields.map_values(|f: FieldSchema| f@)
}

impl View for Struct {
    type V = StructView;

    open spec fn view(&self) -> StructView {
        StructView { name: self.ident@, fields: field_views(self.fields@) }
    }
}

/// No two fields of `fields` share a name.
pub open spec fn distinct_names(fields: Seq<FieldView>) -> bool {
    forall|i: int, j: int|
        0 <= i < j < fields.len() ==> (#[trigger] fields[i]).ident != (#[trigger] fields[j]).ident
}

/// `k` is the place of the first field of `fields` that is called `name`.
pub open spec fn is_position(fields: Seq<FieldView>, name: Seq<char>, k: int) -> bool {
    &&& 0 <= k < fields.len()
    &&& fields[k].ident == name
    &&& forall|j: int| 0 <= j < k ==> (#[trigger] fields[j]).ident != name
}

/// Some field of `fields` is called `name`.
pub open spec fn has_field(fields: Seq<FieldView>, name: Seq<char>) -> bool {
    exists|k: int| 0 <= k < fields.len() && (#[trigger] fields[k]).ident == name
}

/// The name of the builder type of the record called `name`.
pub open spec fn builder_name(name: Seq<char>) -> Seq<char> {
    name + "Builder"@
}

/// What extraction makes of a descriptor: the schema with the descriptor's
/// name and fields, or the diagnostic for its shape.
pub open spec fn extracted(d: RecordDescriptor) -> Result<StructView, DiagnosticView> {
    match rejection(d.shape, d.span) {
        None => Ok(StructView { name: d.name@, fields: field_views(d.fields@) }),
        Some(diagnostic) => Err(diagnostic),
    }
}

/// What extraction makes of a syntax tree.
pub open spec fn extracted_from_syn(ast: DeriveInput) -> Result<StructView, DiagnosticView> {
    match rejection(described_shape(ast), syn_span(ast)) {
        None => Ok(StructView { name: syn_ident(ast), fields: described_fields(ast) }),
        Some(diagnostic) => Err(diagnostic),
    }
}

/// The mathematical value of an extraction result.
pub open spec fn outcome_view(r: Result<Struct, Diagnostic>) -> Result<StructView, DiagnosticView> {
    match r {
        Ok(s) => Ok(s@),
        Err(e) => Err(e@),
    }
}

/// Extraction is repeatable: two extractions of one descriptor of a
/// named-field record both succeed, and with equal schemas.
pub proof fn extraction_is_repeatable(
    d: RecordDescriptor,
    first: Result<Struct, Diagnostic>,
    second: Result<Struct, Diagnostic>,
)
    requires
        d.shape is Named,
        outcome_view(first) == extracted(d),
        outcome_view(second) == extracted(d),
    ensures
        first matches Ok(a) && second matches Ok(b) && a@ == b@,
{
}

/// Extraction keeps the declaration order: the schema of a named-field
/// record holds the descriptor's fields, each at its own place.
pub proof fn extraction_keeps_order(d: RecordDescriptor)
    requires
        d.shape is Named,
    ensures
        extracted(d) matches Ok(s) && s.name == d.name@ && s.fields.len() == d.fields@.len()
            && forall|i: int| 0 <= i < s.fields.len() ==> (#[trigger] s.fields[i]) == d.fields@[i]@,
{
}

/// Extraction keeps names distinct: where no two fields of the descriptor
/// share a name, no two fields of the schema do.
pub proof fn extraction_keeps_names_distinct(d: RecordDescriptor)
    requires
        d.shape is Named,
        distinct_names(field_views(d.fields@)),
    ensures
        extracted(d) matches Ok(s) && distinct_names(s.fields),
{
}

/// Every other shape is rejected: extraction of a descriptor that is not of
/// a named-field record yields a diagnostic, never a schema, and the
/// diagnostic lies at the construct that makes the record what it is.
pub proof fn other_shapes_are_rejected(d: RecordDescriptor)
    requires
        !(d.shape is Named),
    ensures
        extracted(d) matches Err(e) && e.location == d.shape.construct(d.span),
{
}

/// Extraction from a syntax tree is repeatable: two extractions of one tree
/// end alike, with equal schemas or with equal diagnostics.
pub proof fn extraction_from_syn_is_repeatable(
    ast: DeriveInput,
    first: Result<Struct, Diagnostic>,
    second: Result<Struct, Diagnostic>,
)
    requires
        outcome_view(first) == extracted_from_syn(ast),
        outcome_view(second) == extracted_from_syn(ast),
    ensures
        outcome_view(first) == outcome_view(second),
{
}

impl Clone for FieldSchema {
    fn clone(&self) -> (res: FieldSchema)
        ensures
            res@ == self@,
    {
        FieldSchema { field_ident: self.field_ident.clone(), field_type: self.field_type.clone() }
    }
}

/// A copy of `fields`, in the same order.
fn copy_fields(fields: &Vec<FieldSchema>) -> (res: Vec<FieldSchema>)
    ensures
        field_views(res@) == field_views(fields@),
{
    let mut res: Vec<FieldSchema> = Vec::new();
    let mut i: usize = 0;
    while i < fields.len()
        invariant
            i <= fields.len(),
            res.len() == i,
            forall|k: int| 0 <= k < i ==> (#[trigger] res[k])@ == fields[k]@,
        decreases fields.len() - i,
    {
        res.push(fields[i].clone());
        i += 1;
    }
    assert(field_views(res@) =~= field_views(fields@));
    res
}

impl Clone for Struct {
    fn clone(&self) -> (res: Struct)
        ensures
            res@ == self@,
    {
        Struct { ident: self.ident.clone(), fields: copy_fields(&self.fields) }
    }
}

impl FieldSchema {
    /// The field that `field` stands for: its name and the text of its type.
    /// `None` for a positional field, which has no name.
    pub fn get_field_from_syn(field: &syn::Field) -> (res: Option<FieldSchema>)
        ensures
            match named_field(*field) {
                Some(view) => res matches Some(f) && f@ == view,
                None => res is None,
            },
    {
        match field_ident(field) {
            Some(name) => Some(FieldSchema { field_ident: name, field_type: field_type(field) }),
            None => None,
        }
    }

    /// The fields of the item in `ast`, in declaration order, or the
    /// diagnostic for its shape.
    pub fn multiple_from_syn(ast: &DeriveInput) -> (res: Result<Vec<FieldSchema>, Diagnostic>)
        ensures
            match rejection(described_shape(*ast), syn_span(*ast)) {
                None => res matches Ok(fields) && field_views(fields@) == described_fields(*ast),
                Some(diagnostic) => res matches Err(e) && e@ == diagnostic,
            },
    {
        let d = RecordDescriptor::from_syn(ast);
        FieldSchema::multiple_from_descriptor(&d)
    }

    /// The fields of the record that `d` describes, in declaration order, or
    /// the diagnostic for its shape.
    pub fn multiple_from_descriptor(d: &RecordDescriptor) -> (res: Result<Vec<FieldSchema>, Diagnostic>)
        ensures
            match rejection(d.shape, d.span) {
                None => res matches Ok(fields) && field_views(fields@) == field_views(d.fields@),
                Some(diagnostic) => res matches Err(e) && e@ == diagnostic,
            },
    {
        match d.shape.reject(d.span) {
            Some(e) => Err(e),
            None => Ok(copy_fields(&d.fields)),
        }
    }
}

impl Struct {
    /// No two fields of this schema share a name.
    pub open spec fn wf(&self) -> bool {
        distinct_names(self@.fields)
    }

    /// Extracts the schema of the record that `d` describes: its name and its
    /// fields in declaration order if it is a named-field record, else the
    /// diagnostic for its shape, located at the construct that decides the
    /// shape.
    pub fn from_descriptor(d: &RecordDescriptor) -> (res: Result<Struct, Diagnostic>)
        ensures
            outcome_view(res) == extracted(*d),
    {
        match FieldSchema::multiple_from_descriptor(d) {
            Ok(fields) => Ok(Struct { ident: d.name.clone(), fields }),
            Err(e) => Err(e),
        }
    }

    /// Extracts the schema of the item in `ast`: its name and its fields in
    /// declaration order if it is a struct whose fields all have names, else
    /// the diagnostic for its shape.
    pub fn from_syn(ast: &DeriveInput) -> (res: Result<Struct, Diagnostic>)
        ensures
            outcome_view(res) == extracted_from_syn(*ast),
    {
        let d = RecordDescriptor::from_syn(ast);
        Struct::from_descriptor(&d)
    }

    /// The place of the first field called `name`, if there is one.
    pub fn position(&self, name: &str) -> (res: Option<usize>)
        ensures
            match res {
                Some(k) => is_position(self@.fields, name@, k as int),
                None => !has_field(self@.fields, name@),
            },
    {
        let wanted = name.to_string();
        let mut i: usize = 0;
        while i < self.fields.len()
            invariant
                i <= self.fields.len(),
                wanted@ == name@,
                forall|j: int| 0 <= j < i ==> (#[trigger] self@.fields[j]).ident != name@,
            decreases self.fields.len() - i,
        {
            if self.fields[i].field_ident == wanted {
                return Some(i);
            }
            i += 1;
        }
        None
    }

    /// Whether no two fields of this schema share a name.
    pub fn has_distinct_fields(&self) -> (res: bool)
        ensures
            res == self.wf(),
    {
        let mut j: usize = 0;
        while j < self.fields.len()
            invariant
                j <= self.fields.len(),
                forall|a: int, b: int|
                    0 <= a < b < j ==> (#[trigger] self@.fields[a]).ident != (
                    #[trigger] self@.fields[b]).ident,
            decreases self.fields.len() - j,
        {
            let mut i: usize = 0;
            while i < j
                invariant
                    i <= j < self.fields.len(),
                    forall|a: int|
                        0 <= a < i ==> (#[trigger] self@.fields[a]).ident != self@.fields[j as int].ident,
                decreases j - i,
            {
                if self.fields[i].field_ident == self.fields[j].field_ident {
                    assert(self@.fields[i as int].ident == self@.fields[j as int].ident);
                    return false;
                }
                i += 1;
            }
            j += 1;
        }
        true
    }

    /// The name of this record's builder type: the record's name followed by
    /// `Builder`.
    pub fn to_builder_ident(&self) -> (res: String)
        ensures
            res@ == builder_name(self.ident@),
    {
        let mut res = self.ident.clone();
        res.append("Builder");
        res
    }
}

} // verus!
