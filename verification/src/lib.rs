//! Format-agnostic validation of configuration documents against a JSON
//! schema, with span-accurate diagnostics.
//!
//! Documents written in any of the supported surface syntaxes are parsed into
//! a span-carrying tree, canonicalized into a single format-neutral value
//! model, checked against a compiled schema, and every reported violation is
//! resolved back to a byte range of the original source text.

pub mod canon;
pub mod error;
pub mod parse;
pub mod pointer;
pub mod resolve;
pub mod schema;
pub mod span;
pub mod tree;
pub mod validation;
pub mod value;
