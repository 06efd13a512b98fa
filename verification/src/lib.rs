//! Expression semantic analysis for a C front end: lowering of untyped
//! expression trees into a typed intermediate representation in which every
//! node carries a resolved type, an lvalue flag, a source span, and all
//! implicit conversions made explicit.

pub mod analyze;
pub mod ast;
pub mod convert;
pub mod diag;
pub mod hir;
pub mod laws;
pub mod scope;
pub mod types;
