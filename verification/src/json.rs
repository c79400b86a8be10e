//! An untyped structured-data model of a JSON document.
//!
//! Directory documents arrive as JSON of highly variable shape (the `docs`
//! attribute of a feed has no fixed schema at all), so the loader works on
//! a generic tree of key/value and array nodes rather than a fixed wire
//! struct. The caller parses the wire bytes with whatever JSON library it
//! uses and hands the resulting tree over in this form.

use vstd::prelude::*;

verus! {

/// A JSON number. A non-negative integer that fits `u64` and a negative
/// integer that fits `i64` are kept exactly; any other number (a fraction,
/// an exponent, an integer out of those ranges) is kept in its decimal
/// text form, since no field this crate decodes may carry one.
#[derive(Debug, PartialEq)]
pub enum JsonNumber {
    UInt(u64),
    Int(i64),
    Text(String),
}

/// One node of a JSON document. Object members keep document order, and a
/// key may occur more than once; the decoder gives the last occurrence
/// precedence, as a map-based JSON parser would.
#[derive(Debug, PartialEq)]
pub enum JsonValue {
    Null,
    Bool(bool),
    Number(JsonNumber),
    Str(String),
    Array(Vec<JsonValue>),
    Object(Vec<(String, JsonValue)>),
}

} // verus!
