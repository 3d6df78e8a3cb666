//! MooseDB core: a metadata-driven schema and record engine.
//!
//! Operators define collections (logical tables) with typed, constrained
//! fields at runtime.  A metadata catalog records every collection's schema;
//! a mapper turns abstract field types into physical column types and
//! constraint clauses; a codec moves untyped JSON payloads into typed,
//! positional rows and back.  SQLite, reached through a small set of trusted
//! wrappers, is the storage substrate.

pub mod admin;
pub mod assets;
pub mod builder;
pub mod catalog;
pub mod codec;
pub mod errors;
pub mod mapper;
pub mod random;
pub mod registry;
pub mod store;
pub mod text;
