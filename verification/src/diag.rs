//! The diagnostics channel: non-fatal error accumulation. Every semantic
//! rule violation is reported here once and then recovered from locally, so
//! one input can surface many diagnostics in a single pass.

use vstd::prelude::*;
use crate::hir::BinaryOp;
use crate::hir::ComparisonToken;
use crate::hir::Location;
use crate::types::Type;

verus! {

/// Why an expression is not a modifiable lvalue.
#[derive(Clone, Copy, PartialEq, Eq, Debug, Structural)]
pub enum NotAssignableReason {
    Rvalue,
    Incomplete,
    ConstVariable,
    IsArray,
    ConstMember,
}

/// The semantic error taxonomy. All are non-fatal to the pass.
#[derive(PartialEq, Eq, Debug)]
pub enum SemanticError {
    UndeclaredVar(u64),
    TypedefInExpressionContext,
    NonIntegralExpr(Type),
    InvalidRelationalType(ComparisonToken, Type, Type),
    InvalidAdd(BinaryOp, Type, Type),
    InvalidCast(Type, Type),
    NonScalarCast(Type),
    FloatPointerCast(Type),
    StructCast,
    VoidCast,
    PointerAddUnknownSize(Type),
    NotAssignable(NotAssignableReason),
    NonIntegralModulo(Type, Type),
    NonArithmeticOperands(BinaryOp, Type, Type),
}

/// One reported problem, with the span it was reported at.
#[derive(PartialEq, Eq, Debug)]
pub struct Diagnostic {
    pub kind: SemanticError,
    pub location: Location,
}

/// The append-only diagnostics sink; reporting never aborts the caller.
#[derive(Debug)]
pub struct ErrorHandler {
    pub errors: Vec<Diagnostic>,
}

impl ErrorHandler {
    pub fn new() -> (r: ErrorHandler)
        ensures
            r.errors@ == Seq::<Diagnostic>::empty(),
    {
        ErrorHandler { errors: Vec::new() }
    }

    pub fn error(&mut self, kind: SemanticError, location: Location)
        ensures
            final(self).errors@ == old(self).errors@.push((Diagnostic { kind, location })),
    {
        self.errors.push(Diagnostic { kind, location });
    }
}

} // verus!
