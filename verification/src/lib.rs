//! A relational-to-GraphQL projection core: converts tagged scalar value
//! nodes into typed values, tracks positional indices of projected fields,
//! and compiles filter trees into composable predicates with exact
//! absence semantics.

pub mod fields;
pub mod filter;
pub mod ids;
pub mod lookahead;
pub mod mutations;
pub mod predicate;
pub mod scalar;
pub mod strings;
pub mod table;
pub mod time;
