//! Decision core of a test-rewriting attribute.
//!
//! The attribute takes a test function whose body mixes synchronous set-up
//! code with asynchronous code, and rewrites it into one or more ordinary
//! `#[test]` functions: everything before the first statement that touches
//! async code runs as-is, and the rest is handed to a single-threaded async
//! runtime. When the body binds a `match CASE { ... }` whose arms match on
//! string literals, one test function is generated per arm, named after the
//! arm's literal.
//!
//! This crate holds the decisions of that rewrite — where the body splits,
//! which statement carries the cases, whether each case name may stand in an
//! identifier, and what each generated function is called — as verified
//! functions over a plain model of the statements. Reading the syntax tree
//! into that model and printing the rewritten functions back out is left to
//! the unverified glue around the syntax-tree library.

pub mod ident;
pub mod model;
pub mod plan;
