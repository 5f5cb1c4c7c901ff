//! The source text of a record's builder.
//!
//! Every function here returns text, and says in its contract, character for
//! character, which text. A field's type is copied as it stands wherever the
//! generated code names it.

use vstd::prelude::*;
use syn::DeriveInput;
use crate::diagnostics::{Diagnostic, DiagnosticView};
use crate::structs::{
    builder_name, extracted_from_syn, FieldSchema, FieldView, Struct, StructView,
};

verus! {

/// `parts` written one after the other with `sep` between each two.
pub open spec fn joined(parts: Seq<Seq<char>>, sep: Seq<char>) -> Seq<char>
    decreases parts.len(),
{
    if parts.len() == 0 {
        Seq::empty()
    } else if parts.len() == 1 {
        parts[0]
    } else {
        joined(parts.drop_last(), sep) + sep + parts.last()
    }
}

/// The views of `parts`, in the same order.
pub open spec fn texts(parts: Seq<String>) -> Seq<Seq<char>> {
    parts.map_values(|s: String| s@)
}

/// The slot of a field in the builder type: the field's name and its type
/// wrapped in an option.
pub open spec fn optional_field(f: FieldView) -> Seq<char> {
    f.ident + ": std::option::Option<"@ + f.type_ref + ">"@
}

/// The slot of a field in a fresh builder: absent.
pub open spec fn optional_init(f: FieldView) -> Seq<char> {
    f.ident + ": None"@
}

/// The setter of a field: named as the field, it takes a value of the
/// field's type, stores it and hands the builder back. The item in its body
/// makes the generated code compile only where the type can be duplicated.
pub open spec fn setter(f: FieldView) -> Seq<char> {
    "fn "@ + f.ident + "(&mut self, val: "@ + f.type_ref
        + ") -> &mut Self { struct _AssertClone where "@ + f.type_ref + ": Clone; self."@ + f.ident
        + " = Some(val); self }"@
}

/// What `build` reports for a field that was never set.
pub open spec fn missing_field_message(ident: Seq<char>) -> Seq<char> {
    "field `"@ + ident + "` was not set"@
}

/// The field of the finished record: a duplicate of the slot's value, or an
/// early return with the message for this field.
pub open spec fn build_field(f: FieldView) -> Seq<char> {
    f.ident + ": self."@ + f.ident + ".clone().ok_or(String::from(\""@ + missing_field_message(
        f.ident,
    ) + "\"))?"@
}

/// The method that the record itself gets: `builder`, which makes a fresh
/// builder.
pub open spec fn base_struct_impl(s: StructView) -> Seq<char> {
    "impl "@ + s.name + " { fn builder() -> "@ + builder_name(s.name) + " { "@ + builder_name(
        s.name,
    ) + "::new() } }"@
}

/// The builder type: one optional slot per field, in declaration order.
pub open spec fn builder_struct(s: StructView) -> Seq<char> {
    "struct "@ + builder_name(s.name) + " { "@ + joined(
        s.fields.map_values(|f: FieldView| optional_field(f)),
        ", "@,
    ) + " }"@
}

/// The `build` method: the record with every field taken from its slot in
/// declaration order, so that the first field never set is the one reported.
pub open spec fn build_method(s: StructView) -> Seq<char> {
    "fn build(&mut self) -> Result<"@ + s.name + ", Box<dyn std::error::Error>> { Ok("@ + s.name
        + " { "@ + joined(s.fields.map_values(|f: FieldView| build_field(f)), ", "@) + " }) }"@
}

/// The methods of the builder type: `new` with every slot absent, `build`,
/// and one setter per field in declaration order.
pub open spec fn builder_impl(s: StructView) -> Seq<char> {
    "impl "@ + builder_name(s.name) + " { fn new() -> "@ + builder_name(s.name) + " { "@
        + builder_name(s.name) + " { "@ + joined(
        s.fields.map_values(|f: FieldView| optional_init(f)),
        ", "@,
    ) + " } } "@ + build_method(s) + " "@ + joined(
        s.fields.map_values(|f: FieldView| setter(f)),
        " "@,
    ) + " }"@
}

/// All that is generated for a schema: the record's `builder` method, the
/// builder type and its methods, one item per line.
pub open spec fn generated_code(s: StructView) -> Seq<char> {
    base_struct_impl(s) + "\n"@ + builder_struct(s) + "\n"@ + builder_impl(s) + "\n"@
}

/// What expansion makes of a syntax tree: the code generated for its schema,
/// or the diagnostic that its extraction ends with.
pub open spec fn expanded(ast: DeriveInput) -> Result<Seq<char>, DiagnosticView> {
    match extracted_from_syn(ast) {
        Ok(s) => Ok(generated_code(s)),
        Err(diagnostic) => Err(diagnostic),
    }
}

/// Writes `parts` one after the other with `sep` between each two.
pub fn join(parts: &Vec<String>, sep: &str) -> (res: String)
    ensures
        res@ == joined(texts(parts@), sep@),
{
    let mut res = String::new();
    let mut i: usize = 0;
    while i < parts.len()
        invariant
            i <= parts.len(),
            res@ == joined(texts(parts@).take(i as int), sep@),
        decreases parts.len() - i,
    {
        assert(texts(parts@).take(i + 1).drop_last() =~= texts(parts@).take(i as int));
        if i > 0 {
            res.append(sep);
        }
        res.append(parts[i].as_str());
        i += 1;
    }
    assert(texts(parts@).take(i as int) =~= texts(parts@));
    res
}

impl FieldSchema {
    /// This field's slot in the builder type.
    pub fn as_optional_field(&self) -> (res: String)
        ensures
            res@ == optional_field(self@),
    {
        let mut res = self.field_ident.clone();
        res.append(": std::option::Option<");
        res.append(self.field_type.as_str());
        res.append(">");
        res
    }

    /// This field's slot in a fresh builder.
    pub fn as_optional_init(&self) -> (res: String)
        ensures
            res@ == optional_init(self@),
    {
        let mut res = self.field_ident.clone();
        res.append(": None");
        res
    }

    /// This field's setter.
    pub fn as_setter(&self) -> (res: String)
        ensures
            res@ == setter(self@),
    {
        let mut res = String::new();
        res.append("fn ");
        res.append(self.field_ident.as_str());
        res.append("(&mut self, val: ");
        res.append(self.field_type.as_str());
        res.append(") -> &mut Self { struct _AssertClone where ");
        res.append(self.field_type.as_str());
        res.append(": Clone; self.");
        res.append(self.field_ident.as_str());
        res.append(" = Some(val); self }");
        res
    }

    /// This field of the finished record, as `build` fills it.
    pub fn as_build_field(&self) -> (res: String)
        ensures
            res@ == build_field(self@),
    {
        let mut res = self.field_ident.clone();
        res.append(": self.");
        res.append(self.field_ident.as_str());
        res.append(".clone().ok_or(String::from(\"");
        res.append("field `");
        res.append(self.field_ident.as_str());
        res.append("` was not set");
        res.append("\"))?");
        res
    }
}

/// The source text of the `builder` method that the record gets.
pub fn expand_base_struct_impl(struct_data: &Struct) -> (res: String)
    ensures
        res@ == base_struct_impl(struct_data@),
{
    let builder_ident = struct_data.to_builder_ident();
    let mut res = String::new();
    res.append("impl ");
    res.append(struct_data.ident.as_str());
    res.append(" { fn builder() -> ");
    res.append(builder_ident.as_str());
    res.append(" { ");
    res.append(builder_ident.as_str());
    res.append("::new() } }");
    res
}

/// The source text of the builder type.
pub fn expand_builder_struct(struct_data: &Struct) -> (res: String)
    ensures
        res@ == builder_struct(struct_data@),
{
    let builder_ident = struct_data.to_builder_ident();
    let mut inner_fields: Vec<String> = Vec::new();
    let mut i: usize = 0;
    while i < struct_data.fields.len()
        invariant
            i <= struct_data.fields.len(),
            inner_fields.len() == i,
            forall|k: int|
                0 <= k < i ==> (#[trigger] inner_fields[k])@ == optional_field(
                    struct_data.fields[k]@,
                ),
        decreases struct_data.fields.len() - i,
    {
        inner_fields.push(struct_data.fields[i].as_optional_field());
        i += 1;
    }
    assert(texts(inner_fields@) =~= struct_data@.fields.map_values(
        |f: FieldView| optional_field(f),
    ));
    let mut res = String::new();
    res.append("struct ");
    res.append(builder_ident.as_str());
    res.append(" { ");
    res.append(join(&inner_fields, ", ").as_str());
    res.append(" }");
    res
}

/// The source text of the builder's `build` method.
pub fn expand_build_method(struct_data: &Struct) -> (res: String)
    ensures
        res@ == build_method(struct_data@),
{
    let mut field_inits: Vec<String> = Vec::new();
    let mut i: usize = 0;
    while i < struct_data.fields.len()
        invariant
            i <= struct_data.fields.len(),
            field_inits.len() == i,
            forall|k: int|
                0 <= k < i ==> (#[trigger] field_inits[k])@ == build_field(struct_data.fields[k]@),
        decreases struct_data.fields.len() - i,
    {
        field_inits.push(struct_data.fields[i].as_build_field());
        i += 1;
    }
    assert(texts(field_inits@) =~= struct_data@.fields.map_values(|f: FieldView| build_field(f)));
    let mut res = String::new();
    res.append("fn build(&mut self) -> Result<");
    res.append(struct_data.ident.as_str());
    res.append(", Box<dyn std::error::Error>> { Ok(");
    res.append(struct_data.ident.as_str());
    res.append(" { ");
    res.append(join(&field_inits, ", ").as_str());
    res.append(" }) }");
    res
}

/// The source text of the builder's methods: `new`, `build` and the setters.
pub fn expand_builder_impl(struct_data: &Struct) -> (res: String)
    ensures
        res@ == builder_impl(struct_data@),
{
    let mut fields_init: Vec<String> = Vec::new();
    let mut field_setters: Vec<String> = Vec::new();
    let mut i: usize = 0;
    while i < struct_data.fields.len()
        invariant
            i <= struct_data.fields.len(),
            fields_init.len() == i,
            field_setters.len() == i,
            forall|k: int|
                0 <= k < i ==> (#[trigger] fields_init[k])@ == optional_init(
                    struct_data.fields[k]@,
                ),
            forall|k: int|
                0 <= k < i ==> (#[trigger] field_setters[k])@ == setter(struct_data.fields[k]@),
        decreases struct_data.fields.len() - i,
    {
        fields_init.push(struct_data.fields[i].as_optional_init());
        field_setters.push(struct_data.fields[i].as_setter());
        i += 1;
    }
    assert(texts(fields_init@) =~= struct_data@.fields.map_values(
        |f: FieldView| optional_init(f),
    ));
    assert(texts(field_setters@) =~= struct_data@.fields.map_values(|f: FieldView| setter(f)));
    let build_fn = expand_build_method(struct_data);
    let builder_ident = struct_data.to_builder_ident();
    let mut res = String::new();
    res.append("impl ");
    res.append(builder_ident.as_str());
    res.append(" { fn new() -> ");
    res.append(builder_ident.as_str());
    res.append(" { ");
    res.append(builder_ident.as_str());
    res.append(" { ");
    res.append(join(&fields_init, ", ").as_str());
    res.append(" } } ");
    res.append(build_fn.as_str());
    res.append(" ");
    res.append(join(&field_setters, " ").as_str());
    res.append(" }");
    res
}

/// The source text of all that belongs to the builder type beyond its
/// definition.
pub fn expand_builder(struct_data: &Struct) -> (res: String)
    ensures
        res@ == builder_impl(struct_data@),
{
    expand_builder_impl(struct_data)
}

/// The source text of the builder of the record with schema `schema`. Never
/// fails: every schema has a builder.
pub fn synthesize(schema: &Struct) -> (res: String)
    ensures
        res@ == generated_code(schema@),
{
    let mut res = expand_base_struct_impl(schema);
    res.append("\n");
    res.append(expand_builder_struct(schema).as_str());
    res.append("\n");
    res.append(expand_builder(schema).as_str());
    res.append("\n");
    res
}

/// The source text of the builder of the item in `ast`, or the diagnostic
/// that says why it cannot have one.
pub fn expand(ast: &DeriveInput) -> (res: Result<String, Diagnostic>)
    ensures
        match expanded(*ast) {
            Ok(text) => res matches Ok(code) && code@ == text,
            Err(diagnostic) => res matches Err(e) && e@ == diagnostic,
        },
{
    match Struct::from_syn(ast) {
        Ok(struct_data) => Ok(synthesize(&struct_data)),
        Err(e) => Err(e),
    }
}

} // verus!
