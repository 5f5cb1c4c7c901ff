use builder::diagnostics::Diagnostic;
use builder::descriptor::{RecordDescriptor, Shape};
use builder::structs::{FieldSchema, Struct};
use proc_macro2::Span;
use syn::spanned::Spanned;
use syn::{Data, DeriveInput, Fields};

fn parse(source: &str) -> DeriveInput {
    syn::parse_str::<DeriveInput>(source).unwrap()
}

fn field(ident: &str, ty: &str) -> FieldSchema {
    FieldSchema { field_ident: ident.to_string(), field_type: ty.to_string() }
}

fn descriptor(name: &str, shape: Shape, fields: Vec<FieldSchema>) -> RecordDescriptor {
    RecordDescriptor { name: name.to_string(), span: Span::call_site(), shape, fields }
}

fn same_place(a: Span, b: Span) -> bool {
    a.start() == b.start() && a.end() == b.end()
}

fn columns(span: Span) -> (usize, usize) {
    (span.start().column, span.end().column)
}

#[test]
fn named_struct_gives_its_fields_in_order() {
    let ast = parse("struct Point { x: i32, y: Vec<String> }");
    let schema = Struct::from_syn(&ast).unwrap();
    assert_eq!(schema.ident, "Point");
    assert_eq!(schema.fields, vec![field("x", "i32"), field("y", "Vec < String >")]);
}

#[test]
fn declaration_order_is_kept_not_sorted() {
    let ast = parse("struct Command { zeta: u8, alpha: u8, mid: u8 }");
    let schema = Struct::from_syn(&ast).unwrap();
    let names: Vec<&str> = schema.fields.iter().map(|f| f.field_ident.as_str()).collect();
    assert_eq!(names, vec!["zeta", "alpha", "mid"]);
}

#[test]
fn extraction_twice_gives_equal_schemas() {
    let ast = parse("pub struct Command { executable: String, args: Vec<String>, env: Vec<String> }");
    let first = Struct::from_syn(&ast).unwrap();
    let second = Struct::from_syn(&ast).unwrap();
    assert_eq!(first, second);
    assert_eq!(first.fields.len(), 3);
}

#[test]
fn extraction_of_a_descriptor_twice_gives_equal_schemas() {
    let d = descriptor(
        "Point",
        Shape::Named { field_list: Span::call_site() },
        vec![field("x", "Int"), field("y", "Int")],
    );
    let first = Struct::from_descriptor(&d).unwrap();
    let second = Struct::from_descriptor(&d).unwrap();
    assert_eq!(first, second);
    assert_eq!(first.ident, "Point");
    assert_eq!(first.fields, vec![field("x", "Int"), field("y", "Int")]);
}

#[test]
fn struct_without_fields_is_a_schema_without_fields() {
    let ast = parse("struct Empty {}");
    let schema = Struct::from_syn(&ast).unwrap();
    assert_eq!(schema.ident, "Empty");
    assert!(schema.fields.is_empty());
}

#[test]
fn attributes_and_visibility_do_not_reach_the_schema() {
    let ast = parse("#[derive(Debug)] pub(crate) struct Point { #[doc = \"x\"] pub x: i32 }");
    let schema = Struct::from_syn(&ast).unwrap();
    assert_eq!(schema.ident, "Point");
    assert_eq!(schema.fields, vec![field("x", "i32")]);
}

#[test]
fn field_types_are_carried_as_they_are_written() {
    let ast = parse("struct Refs<'a> { name: &'a str, table: std::collections::HashMap<String, Option<u8>> }");
    let schema = Struct::from_syn(&ast).unwrap();
    assert_eq!(schema.fields[0].field_type, "& 'a str");
    assert_eq!(
        schema.fields[1].field_type,
        "std :: collections :: HashMap < String , Option < u8 > >"
    );
    let again: syn::Type = syn::parse_str(&schema.fields[1].field_type).unwrap();
    let written: syn::Type =
        syn::parse_str("std::collections::HashMap<String, Option<u8>>").unwrap();
    assert_eq!(again, written);
}

#[test]
fn raw_identifier_keeps_its_prefix() {
    let ast = parse("struct Token { r#type: u8 }");
    let schema = Struct::from_syn(&ast).unwrap();
    assert_eq!(schema.fields[0].field_ident, "r#type");
}

#[test]
fn tuple_struct_is_rejected_at_its_field_list() {
    let ast = parse("pub struct Pair(i32, i32);");
    let error: Diagnostic = Struct::from_syn(&ast).unwrap_err();
    assert_eq!(error.message, "tuple-style records not supported");
    assert_eq!(columns(error.location), (15, 25));
    let list = match &ast.data {
        Data::Struct(data) => data.fields.span(),
        _ => panic!("not a struct"),
    };
    assert!(same_place(error.location, list));
}

#[test]
fn marker_struct_is_rejected_at_the_record() {
    let ast = parse("pub struct Marker;");
    let error = Struct::from_syn(&ast).unwrap_err();
    assert_eq!(error.message, "marker records not supported");
    assert_eq!(columns(error.location), (0, 18));
    assert!(same_place(error.location, ast.span()));
}

#[test]
fn enum_is_rejected_at_its_keyword() {
    let ast = parse("pub enum Choice { Left, Right }");
    let error = Struct::from_syn(&ast).unwrap_err();
    assert_eq!(error.message, "sum types not supported");
    assert_eq!(columns(error.location), (4, 8));
    let keyword = match &ast.data {
        Data::Enum(data) => data.enum_token.span,
        _ => panic!("not an enum"),
    };
    assert!(same_place(error.location, keyword));
}

#[test]
fn union_is_rejected_at_its_keyword() {
    let ast = parse("pub union Bits { word: u32, bytes: [u8; 4] }");
    let error = Struct::from_syn(&ast).unwrap_err();
    assert_eq!(error.message, "overlapping-storage aggregates not supported");
    assert_eq!(columns(error.location), (4, 9));
    let keyword = match &ast.data {
        Data::Union(data) => data.union_token.span,
        _ => panic!("not a union"),
    };
    assert!(same_place(error.location, keyword));
}

#[test]
fn rejected_shapes_never_give_fields() {
    for source in ["struct Pair(i32, i32);", "struct Marker;", "enum E { A }", "union U { a: u8 }"] {
        let ast = parse(source);
        assert!(Struct::from_syn(&ast).is_err());
        assert!(FieldSchema::multiple_from_syn(&ast).is_err());
        assert!(RecordDescriptor::from_syn(&ast).fields.is_empty());
    }
}

#[test]
fn multiple_from_syn_gives_the_fields_alone() {
    let ast = parse("struct Point { x: i32, y: i32 }");
    let fields = FieldSchema::multiple_from_syn(&ast).unwrap();
    assert_eq!(fields, vec![field("x", "i32"), field("y", "i32")]);
    let ast = parse("enum E { A }");
    let error = FieldSchema::multiple_from_syn(&ast).unwrap_err();
    assert_eq!(error.message, "sum types not supported");
}

#[test]
fn get_field_from_syn_reads_name_and_type() {
    let ast = parse("struct Point { x: i32, y: Option<u8> }");
    let declared: Vec<&syn::Field> = match &ast.data {
        Data::Struct(data) => data.fields.iter().collect(),
        _ => panic!("not a struct"),
    };
    assert_eq!(FieldSchema::get_field_from_syn(declared[0]), Some(field("x", "i32")));
    assert_eq!(FieldSchema::get_field_from_syn(declared[1]), Some(field("y", "Option < u8 >")));
}

#[test]
fn get_field_from_syn_has_nothing_for_a_positional_field() {
    let ast = parse("struct Pair(i32, u8);");
    let declared: Vec<&syn::Field> = match &ast.data {
        Data::Struct(data) => data.fields.iter().collect(),
        _ => panic!("not a struct"),
    };
    assert_eq!(FieldSchema::get_field_from_syn(declared[0]), None);
    assert_eq!(FieldSchema::get_field_from_syn(declared[1]), None);
}

#[test]
fn positional_field_between_braces_counts_as_a_tuple() {
    let mut ast = parse("struct Odd { x: i32, y: u8 }");
    if let Data::Struct(data) = &mut ast.data {
        if let Fields::Named(list) = &mut data.fields {
            list.named[1].ident = None;
        }
    }
    let d = RecordDescriptor::from_syn(&ast);
    assert!(matches!(d.shape, Shape::Tuple { .. }));
    assert!(d.fields.is_empty());
    let error = Struct::from_syn(&ast).unwrap_err();
    assert_eq!(error.message, "tuple-style records not supported");
    assert_eq!(columns(error.location), (11, 28));
}

#[test]
fn descriptor_from_syn_holds_name_shape_and_fields() {
    let ast = parse("struct Point { x: i32, y: i32 }");
    let d = RecordDescriptor::from_syn(&ast);
    assert_eq!(d.name, "Point");
    assert!(same_place(d.span, ast.span()));
    match d.shape {
        Shape::Named { field_list } => assert_eq!(columns(field_list), (13, 31)),
        other => panic!("unexpected shape {:?}", other),
    }
    assert_eq!(d.fields, vec![field("x", "i32"), field("y", "i32")]);

    let d = RecordDescriptor::from_syn(&parse("struct Pair(i32, i32);"));
    assert_eq!(d.name, "Pair");
    assert!(matches!(d.shape, Shape::Tuple { .. }));
    let d = RecordDescriptor::from_syn(&parse("struct Marker;"));
    assert!(matches!(d.shape, Shape::Marker));
    let d = RecordDescriptor::from_syn(&parse("enum E { A }"));
    assert!(matches!(d.shape, Shape::Sum { .. }));
    let d = RecordDescriptor::from_syn(&parse("union U { a: u8 }"));
    assert!(matches!(d.shape, Shape::Union { .. }));
}

#[test]
fn descriptor_shapes_decide_the_diagnostic() {
    let list = parse("struct Pair(i32, i32);");
    let somewhere = match &list.data {
        Data::Struct(data) => data.fields.span(),
        _ => panic!("not a struct"),
    };
    let whole = list.span();

    let tuple = RecordDescriptor {
        name: "P".to_string(),
        span: whole,
        shape: Shape::Tuple { field_list: somewhere },
        fields: Vec::new(),
    };
    let error = Struct::from_descriptor(&tuple).unwrap_err();
    assert_eq!(error.message, "tuple-style records not supported");
    assert!(same_place(error.location, somewhere));

    let marker = RecordDescriptor {
        name: "P".to_string(),
        span: whole,
        shape: Shape::Marker,
        fields: Vec::new(),
    };
    let error = Struct::from_descriptor(&marker).unwrap_err();
    assert_eq!(error.message, "marker records not supported");
    assert!(same_place(error.location, whole));

    let sum = RecordDescriptor {
        name: "P".to_string(),
        span: whole,
        shape: Shape::Sum { keyword: somewhere },
        fields: Vec::new(),
    };
    let error = Struct::from_descriptor(&sum).unwrap_err();
    assert_eq!(error.message, "sum types not supported");
    assert!(same_place(error.location, somewhere));

    let union = RecordDescriptor {
        name: "P".to_string(),
        span: whole,
        shape: Shape::Union { keyword: somewhere },
        fields: Vec::new(),
    };
    let error = Struct::from_descriptor(&union).unwrap_err();
    assert_eq!(error.message, "overlapping-storage aggregates not supported");
    assert!(same_place(error.location, somewhere));
}

#[test]
fn rejected_descriptor_ignores_its_fields() {
    let d = descriptor("P", Shape::Marker, vec![field("x", "Int")]);
    assert!(Struct::from_descriptor(&d).is_err());
    assert!(FieldSchema::multiple_from_descriptor(&d).is_err());
}

#[test]
fn reject_is_none_for_the_named_shape_only() {
    let at = Span::call_site();
    assert!(Shape::Named { field_list: at }.reject(at).is_none());
    assert!(Shape::Tuple { field_list: at }.reject(at).is_some());
    assert!(Shape::Marker.reject(at).is_some());
    assert!(Shape::Sum { keyword: at }.reject(at).is_some());
    assert!(Shape::Union { keyword: at }.reject(at).is_some());
}

#[test]
fn diagnostic_pairs_message_and_location() {
    let ast = parse("struct Marker;");
    let d = Diagnostic::new(ast.ident.span(), "no");
    assert_eq!(d.message, "no");
    assert_eq!(columns(d.location), (7, 13));
}

#[test]
fn builder_ident_is_the_name_followed_by_builder() {
    let schema = Struct { ident: "Point".to_string(), fields: Vec::new() };
    assert_eq!(schema.to_builder_ident(), "PointBuilder");
    let schema = Struct::from_syn(&parse("struct Command { args: Vec<String> }")).unwrap();
    assert_eq!(schema.to_builder_ident(), "CommandBuilder");
}

#[test]
fn position_finds_the_first_field_of_a_name() {
    let schema = Struct {
        ident: "P".to_string(),
        fields: vec![field("x", "Int"), field("y", "Int"), field("x", "Text")],
    };
    assert_eq!(schema.position("x"), Some(0));
    assert_eq!(schema.position("y"), Some(1));
    assert_eq!(schema.position("z"), None);
    assert_eq!(schema.position(""), None);
}

#[test]
fn distinct_fields_are_told_from_repeated_ones() {
    let distinct = Struct {
        ident: "P".to_string(),
        fields: vec![field("x", "Int"), field("y", "Int"), field("z", "Int")],
    };
    assert!(distinct.has_distinct_fields());
    let repeated = Struct {
        ident: "P".to_string(),
        fields: vec![field("x", "Int"), field("y", "Int"), field("x", "Int")],
    };
    assert!(!repeated.has_distinct_fields());
    let empty = Struct { ident: "P".to_string(), fields: Vec::new() };
    assert!(empty.has_distinct_fields());
    let syntactic = Struct::from_syn(&parse("struct P { x: u8, x: u8 }")).unwrap();
    assert!(!syntactic.has_distinct_fields());
}

#[test]
fn clone_of_a_schema_is_equal_to_it() {
    let schema = Struct::from_syn(&parse("struct Point { x: i32, y: i32 }")).unwrap();
    assert_eq!(schema.clone(), schema);
    assert_eq!(schema.fields[1].clone(), field("y", "i32"));
}
