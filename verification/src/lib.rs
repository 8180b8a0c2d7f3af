//! Declaration-level abstract syntax tree for a contract-oriented language,
//! together with the test-fixture directive scanner that accompanies its
//! compiler's test suite.
//!
//! The tree models one source file as a sequence of top-level items
//! (pragmas, imports, using-directives, contracts, functions, variables,
//! structs, enums, user-defined value types, errors, events). Expression,
//! statement, type and path sub-grammars are opaque leaves: this crate
//! composes them but never looks inside.

pub mod leaf;
pub mod strutil;
pub mod item;
pub mod header;
