//! A typed expression layer for PostgreSQL full-text search.
//!
//! The library declares the scalar type tags that full-text-search values
//! carry (`tsquery`, `tsvector`, `regconfig`), a catalog of search-function
//! signatures, and the infix operators that combine search values. Expression
//! trees are built bottom-up from typed leaves; every constructor checks its
//! operands' type tags, and the renderer emits the exact SQL text of a tree.

pub mod dsl;
pub mod expr;
pub mod functions;
pub mod laws;
pub mod operators;
pub mod types;
