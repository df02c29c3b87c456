//! A compiler for fixed-length tagged record formats: it validates a declared
//! schema, resolves every field's `[from, to)` range from partial position hints,
//! and interprets the result as a tag-dispatching line parser.

pub mod compile;
pub mod dispatch;
pub mod laws;
pub mod number;
pub mod resolve;
pub mod schema;
pub mod validate;
