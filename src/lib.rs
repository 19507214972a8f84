//! Compiles a record schema (named, typed, annotated fields) into the text of
//! a sequential binary parser for the record, written against a combinator
//! runtime: each field's declared type and annotations become a parser tree,
//! and the trees are chained in declaration order.
use vstd::prelude::*;

pub mod compile;
pub mod config;
pub mod laws;
pub mod record;
pub mod schema;
pub mod text;
pub mod tree;

verus! {

} // verus!
