use builder::protocol::{Builder, MissingField, Record};
use builder::structs::{FieldSchema, Struct};

fn field(ident: &str, ty: &str) -> FieldSchema {
    FieldSchema { field_ident: ident.to_string(), field_type: ty.to_string() }
}

fn point() -> Struct {
    Struct { ident: "Point".to_string(), fields: vec![field("x", "Int"), field("y", "Int")] }
}

fn triple() -> Struct {
    Struct {
        ident: "Triple".to_string(),
        fields: vec![field("a", "Int"), field("b", "Int"), field("c", "Int")],
    }
}

fn missing(name: &str) -> MissingField {
    MissingField { field: name.to_string() }
}

#[test]
fn point_with_both_fields_set_builds() {
    let mut builder: Builder<i64> = Builder::new(point());
    let built = builder.set("x", 3).set("y", 4).build();
    assert_eq!(built, Ok(Record { name: "Point".to_string(), values: vec![3, 4] }));
}

#[test]
fn point_without_y_fails_naming_y() {
    let mut builder: Builder<i64> = Builder::new(point());
    let built = builder.set("x", 3).build();
    assert_eq!(built, Err(missing("y")));
    assert_eq!(built.unwrap_err().message(), "field `y` was not set");
}

#[test]
fn point_with_nothing_set_fails_naming_x() {
    let builder: Builder<i64> = Builder::new(point());
    assert_eq!(builder.build(), Err(missing("x")));
}

#[test]
fn schema_without_fields_builds_at_once() {
    let schema = Struct { ident: "Empty".to_string(), fields: Vec::new() };
    let builder: Builder<i64> = Builder::new(schema);
    assert_eq!(builder.build(), Ok(Record { name: "Empty".to_string(), values: Vec::new() }));
}

#[test]
fn setters_in_any_order_give_the_same_record() {
    let expected = Ok(Record { name: "Triple".to_string(), values: vec![1, 2, 3] });
    let orders: [[(&str, i64); 3]; 6] = [
        [("a", 1), ("b", 2), ("c", 3)],
        [("a", 1), ("c", 3), ("b", 2)],
        [("b", 2), ("a", 1), ("c", 3)],
        [("b", 2), ("c", 3), ("a", 1)],
        [("c", 3), ("a", 1), ("b", 2)],
        [("c", 3), ("b", 2), ("a", 1)],
    ];
    for order in orders {
        let mut builder: Builder<i64> = Builder::new(triple());
        for (name, value) in order {
            builder.set(name, value);
        }
        assert_eq!(builder.build(), expected);
    }
}

#[test]
fn last_value_set_for_a_field_wins() {
    let mut builder: Builder<i64> = Builder::new(point());
    builder.set("x", 1).set("y", 2).set("x", 10).set("x", 11);
    assert_eq!(builder.build(), Ok(Record { name: "Point".to_string(), values: vec![11, 2] }));
}

#[test]
fn each_missing_field_is_named() {
    let names = ["a", "b", "c"];
    for left_out in names {
        let mut builder: Builder<i64> = Builder::new(triple());
        for name in names {
            if name != left_out {
                builder.set(name, 7);
            }
        }
        assert_eq!(builder.build(), Err(missing(left_out)));
    }
}

#[test]
fn first_missing_field_in_declaration_order_is_named() {
    let mut builder: Builder<i64> = Builder::new(triple());
    builder.set("b", 2);
    assert_eq!(builder.build(), Err(missing("a")));
    let mut builder: Builder<i64> = Builder::new(triple());
    builder.set("a", 1);
    assert_eq!(builder.build(), Err(missing("b")));
    let mut builder: Builder<i64> = Builder::new(triple());
    builder.set("c", 3).set("a", 1);
    assert_eq!(builder.build(), Err(missing("b")));
}

#[test]
fn failed_build_leaves_the_builder_ready_for_more() {
    let mut builder: Builder<i64> = Builder::new(point());
    builder.set("y", 4);
    assert_eq!(builder.build(), Err(missing("x")));
    assert_eq!(builder.build(), Err(missing("x")));
    builder.set("x", 3);
    assert_eq!(builder.build(), Ok(Record { name: "Point".to_string(), values: vec![3, 4] }));
}

#[test]
fn builds_after_further_setters_are_independent() {
    let mut builder: Builder<i64> = Builder::new(point());
    builder.set("x", 3).set("y", 4);
    let first = builder.build().unwrap();
    builder.set("y", 5);
    let second = builder.build().unwrap();
    assert_eq!(first.values, vec![3, 4]);
    assert_eq!(second.values, vec![3, 5]);
}

#[test]
fn setter_returns_the_builder_it_was_called_on() {
    let mut builder: Builder<i64> = Builder::new(triple());
    {
        let chain = builder.set("a", 1);
        let chain = chain.set("b", 2);
        let chain = chain.set("c", 3);
        assert_eq!(chain.build().unwrap().values, vec![1, 2, 3]);
    }
    assert_eq!(builder.build().unwrap().values, vec![1, 2, 3]);
}

#[test]
fn values_of_another_type_are_carried_too() {
    let schema = Struct {
        ident: "Flags".to_string(),
        fields: vec![field("verbose", "bool"), field("force", "bool")],
    };
    let mut builder: Builder<bool> = Builder::new(schema);
    builder.set("force", true).set("verbose", false);
    assert_eq!(builder.build().unwrap().values, vec![false, true]);
}

#[test]
fn builder_keeps_its_schema() {
    let builder: Builder<i64> = Builder::new(point());
    assert_eq!(*builder.schema(), point());
}

#[test]
fn builder_of_an_extracted_schema_follows_it() {
    let ast = syn::parse_str::<syn::DeriveInput>("struct Point { x: i32, y: i32 }").unwrap();
    let schema = Struct::from_syn(&ast).unwrap();
    assert!(schema.has_distinct_fields());
    let mut builder: Builder<i32> = Builder::new(schema);
    assert_eq!(builder.build(), Err(missing("x")));
    builder.set("y", 4).set("x", 3);
    assert_eq!(builder.build(), Ok(Record { name: "Point".to_string(), values: vec![3, 4] }));
}

#[test]
fn missing_field_message_names_the_field() {
    assert_eq!(missing("x").message(), "field `x` was not set");
    assert_eq!(missing("").message(), "field `` was not set");
}
