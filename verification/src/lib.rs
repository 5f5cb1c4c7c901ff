//! Builder synthesis for named-field records.
//!
//! A description of a record is told by its shape, reduced to a schema (the
//! record's name and its fields in declaration order), and the schema is turned
//! into the source text of a companion builder: a type with one optional slot
//! per field, a constructor, one setter per field and a `build` operation that
//! fails on the first field that was never set.
//!
//! - [`diagnostics`]: a message with the place in the source that it is about.
//! - [`ast`]: what is read of a parsed derive input, and nothing more.
//! - [`descriptor`]: a record in plain values, and the shapes that are rejected.
//! - [`structs`]: the schema and its extraction.
//! - [`expand`]: the text of the generated code.
//! - [`protocol`]: what the generated builder does, as a builder over values,
//!   with the laws of setting and building.

pub mod diagnostics;
pub mod ast;
pub mod descriptor;
pub mod structs;
pub mod expand;
pub mod protocol;
