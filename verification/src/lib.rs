//! Takes a struct declaration apart.
//!
//! From the source text of one struct, `builder::codegen` writes a module of
//! the struct's name that holds
//!
//! - `field`, a module with one marker type per field;
//! - a documented type alias for every field whose type refers to none of the
//!   struct's type parameters;
//! - `core`, the struct itself, public and with documented public fields;
//! - `protocol`, a trait with one associated type for every other field, and
//!   its implementation for `core`.
//!
//! A field without a name is known as `field_0`, `field_1` and so on, by its
//! position. Whether a field depends on a type parameter is decided once, by
//! the identifiers that head the type paths of its type (`walker`), and the
//! alias and the contract both follow that decision (`laws`).
//!
//! `syn` reads the declaration and the types; everything from the parsed
//! declaration to the emitted text is this crate's own.

pub mod alias;
pub mod builder;
pub mod contract;
pub mod error;
pub mod laws;
pub mod parser;
pub mod record;
pub mod structure;
pub mod text;
pub mod tools;
pub mod walker;
