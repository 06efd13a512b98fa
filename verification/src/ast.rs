//! The untyped expression tree, as the parser collaborator hands it over.
//! Identifiers and written type names arrive already interned and resolved;
//! every node carries its source span.

use vstd::prelude::*;
use crate::hir::AssignmentToken;
use crate::hir::ComparisonToken;
use crate::hir::Literal;
use crate::hir::Location;
use crate::types::Type;

verus! {

/// An untyped expression node.
#[derive(PartialEq, Eq, Debug)]
pub struct Expr {
    pub data: ExprKind,
    pub location: Location,
}

/// The syntactic categories this pass supports. The shift flag is `true`
/// for a left shift.
#[derive(PartialEq, Eq, Debug)]
pub enum ExprKind {
    Literal(Literal),
    Id(u64),
    Cast(Type, Box<Expr>),
    Shift(Box<Expr>, Box<Expr>, bool),
    BitwiseAnd(Box<Expr>, Box<Expr>),
    BitwiseOr(Box<Expr>, Box<Expr>),
    Xor(Box<Expr>, Box<Expr>),
    Compare(Box<Expr>, Box<Expr>, ComparisonToken),
    Mul(Box<Expr>, Box<Expr>),
    Div(Box<Expr>, Box<Expr>),
    Mod(Box<Expr>, Box<Expr>),
    Add(Box<Expr>, Box<Expr>),
    Sub(Box<Expr>, Box<Expr>),
    Assign(Box<Expr>, Box<Expr>, AssignmentToken),
}

} // verus!
