//! The conversion engine: rvalue decay, implicit-cast insertion, the
//! expression-level usual arithmetic conversion, and pointer compatibility
//! promotion.

use vstd::prelude::*;
use crate::diag::Diagnostic;
use crate::diag::ErrorHandler;
use crate::diag::SemanticError;
use crate::hir::Expr;
use crate::hir::ExprKind;
use crate::types::Qualifiers;
use crate::types::Type;
use crate::types::type_eq;

verus! {

/// Rvalue conversion: arrays decay to pointers, function designators to
/// `const` pointers, aggregate lvalues are reinterpreted in place, any other
/// lvalue is loaded through an explicit `Deref` node, and rvalues pass
/// through unchanged.
pub open spec fn spec_rval(e: Expr) -> Expr {
    match e.ctype {
        Type::Array(to, _) => Expr {
            lval: false,
            ctype: Type::Pointer(to, Qualifiers::spec_none()),
            expr: e.expr,
            location: e.location,
        },
        Type::Function(sig) => Expr {
            lval: false,
            ctype: Type::Pointer(Box::new(Type::Function(sig)), Qualifiers::spec_const_only()),
            expr: e.expr,
            location: e.location,
        },
        Type::Struct(info) => Expr {
            lval: false,
            ctype: Type::Struct(info),
            expr: e.expr,
            location: e.location,
        },
        Type::Union(info) => Expr {
            lval: false,
            ctype: Type::Union(info),
            expr: e.expr,
            location: e.location,
        },
        _ => if e.lval {
            Expr {
                ctype: e.ctype,
                lval: false,
                location: e.location,
                expr: ExprKind::Deref(Box::new(e)),
            }
        } else {
            e
        },
    }
}

/// The combinations `implicit_cast` bridges with an explicit `Cast` node.
pub open spec fn spec_cast_directly(e: Expr, target: Type) -> bool {
    (e.ctype.spec_is_arithmetic() && target.spec_is_arithmetic()) || (e.spec_is_null()
        && target.spec_is_pointer()) || (e.ctype.spec_is_pointer() && (target.spec_is_bool()
        || target.spec_is_void_pointer() || target.spec_is_char_pointer()))
}

/// The combinations `implicit_cast` bridges by retyping in place.
pub open spec fn spec_retype_directly(e: Expr, target: Type) -> bool {
    target.spec_is_pointer() && (e.spec_is_null() || e.ctype.spec_is_void_pointer()
        || e.ctype.spec_is_char_pointer())
}

/// The node `implicit_cast` returns; on failure the expression comes back
/// unchanged.
pub open spec fn spec_implicit_cast(e: Expr, target: Type) -> Expr {
    if e.ctype == target {
        e
    } else if spec_cast_directly(e, target) {
        Expr { location: e.location, expr: ExprKind::Cast(Box::new(e)), lval: false, ctype: target }
    } else if spec_retype_directly(e, target) {
        Expr { location: e.location, expr: e.expr, lval: e.lval, ctype: target }
    } else {
        e
    }
}

/// The diagnostics `implicit_cast` reports: exactly one `InvalidCast` when
/// no rule applies and the source is not the `Error` sentinel, which
/// swallows cascading reports.
pub open spec fn spec_implicit_cast_diags(e: Expr, target: Type) -> Seq<Diagnostic> {
    if e.ctype == target || spec_cast_directly(e, target) || spec_retype_directly(e, target)
        || e.ctype == Type::Error {
        Seq::empty()
    } else {
        seq![
            (Diagnostic {
                kind: SemanticError::InvalidCast(e.ctype, target),
                location: e.location,
            }),
        ]
    }
}

/// Both operands decayed and, where the usual arithmetic conversion is
/// defined for both, converted to the common type.
pub open spec fn spec_promote_pair(left: Expr, right: Expr) -> (Expr, Expr) {
    let l = spec_rval(left);
    let r = spec_rval(right);
    if l.ctype.spec_is_promotable() && r.ctype.spec_is_promotable() {
        let target = Type::spec_binary_promote(l.ctype, r.ctype);
        (spec_implicit_cast(l, target), spec_implicit_cast(r, target))
    } else {
        (l, r)
    }
}

/// The diagnostics of `spec_promote_pair`, left operand first.
pub open spec fn spec_promote_diags(left: Expr, right: Expr) -> Seq<Diagnostic> {
    let l = spec_rval(left);
    let r = spec_rval(right);
    if l.ctype.spec_is_promotable() && r.ctype.spec_is_promotable() {
        let target = Type::spec_binary_promote(l.ctype, r.ctype);
        spec_implicit_cast_diags(l, target) + spec_implicit_cast_diags(r, target)
    } else {
        Seq::empty()
    }
}

impl Expr {
    /// Ensure the expression has a value: arrays and functions become
    /// pointers, other lvalues are loaded from storage.
    pub fn rval(self) -> (r: Expr)
        ensures
            r == spec_rval(self),
    {
        match self.ctype {
            Type::Array(to, _) => Expr {
                lval: false,
                ctype: Type::Pointer(to, Qualifiers::none()),
                expr: self.expr,
                location: self.location,
            },
            Type::Function(sig) => Expr {
                lval: false,
                ctype: Type::Pointer(Box::new(Type::Function(sig)), Qualifiers::const_only()),
                expr: self.expr,
                location: self.location,
            },
            Type::Struct(info) => Expr {
                lval: false,
                ctype: Type::Struct(info),
                expr: self.expr,
                location: self.location,
            },
            Type::Union(info) => Expr {
                lval: false,
                ctype: Type::Union(info),
                expr: self.expr,
                location: self.location,
            },
            other => if self.lval {
                let ctype = other.clone();
                let inner = Expr {
                    ctype: other,
                    expr: self.expr,
                    lval: self.lval,
                    location: self.location,
                };
                Expr {
                    ctype,
                    lval: false,
                    location: inner.location,
                    expr: ExprKind::Deref(Box::new(inner)),
                }
            } else {
                Expr { ctype: other, expr: self.expr, lval: self.lval, location: self.location }
            },
        }
    }

    /// Insert the implicit conversion to `target`, reporting `InvalidCast`
    /// and returning the expression unchanged where none exists.
    pub fn implicit_cast(self, target: &Type, error_handler: &mut ErrorHandler) -> (r: Expr)
        ensures
            r == spec_implicit_cast(self, *target),
            final(error_handler).errors@ == old(error_handler).errors@ + spec_implicit_cast_diags(
                self,
                *target,
            ),
    {
        proof {
            assert(old(error_handler).errors@ + Seq::<Diagnostic>::empty() =~= old(
                error_handler,
            ).errors@);
        }
        if type_eq(&self.ctype, target) {
            self
        } else if self.ctype.is_arithmetic() && target.is_arithmetic() || self.is_null()
            && target.is_pointer() || self.ctype.is_pointer() && (target.is_bool()
            || target.is_void_pointer() || target.is_char_pointer()) {
            let location = self.location;
            let ctype = target.clone();
            Expr { location, expr: ExprKind::Cast(Box::new(self)), lval: false, ctype }
        } else if target.is_pointer() && (self.is_null() || self.ctype.is_void_pointer()
            || self.ctype.is_char_pointer()) {
            let ctype = target.clone();
            Expr { location: self.location, expr: self.expr, lval: self.lval, ctype }
        } else if type_eq(&self.ctype, &Type::Error) {
            self
        } else {
            error_handler.error(
                SemanticError::InvalidCast(self.ctype.clone(), target.clone()),
                self.location,
            );
            proof {
                assert(old(error_handler).errors@.push(
                    (Diagnostic {
                        kind: SemanticError::InvalidCast(self.ctype, *target),
                        location: self.location,
                    }),
                ) =~= old(error_handler).errors@ + spec_implicit_cast_diags(self, *target));
            }
            self
        }
    }

    /// Perform the usual arithmetic conversion on a pair of expressions,
    /// inserting all casts it calls for. Operands outside the conversion's
    /// domain are returned decayed but unconverted; the operator rules have
    /// already reported them.
    pub fn binary_promote(left: Expr, right: Expr, error_handler: &mut ErrorHandler) -> (r: (
        Expr,
        Expr,
    ))
        ensures
            r == spec_promote_pair(left, right),
            final(error_handler).errors@ == old(error_handler).errors@ + spec_promote_diags(
                left,
                right,
            ),
    {
        let l = left.rval();
        let r = right.rval();
        if l.ctype.is_promotable() && r.ctype.is_promotable() {
            let target = Type::binary_promote(&l.ctype, &r.ctype);
            let l2 = l.implicit_cast(&target, error_handler);
            let r2 = r.implicit_cast(&target, error_handler);
            (l2, r2)
        } else {
            proof {
                assert(old(error_handler).errors@ + Seq::<Diagnostic>::empty() =~= old(
                    error_handler,
                ).errors@);
            }
            (l, r)
        }
    }
}

/// Make two decayed pointer expressions comparable when the language allows
/// it: equal types pass through; a void pointer, a char pointer, or a null
/// constant on either side takes the other side's type. Returns whether the
/// pair is now compatible.
pub fn pointer_promote(left: &mut Expr, right: &mut Expr) -> (r: bool)
    ensures
        ({
            let outcome = spec_pointer_promote(*old(left), *old(right));
            *final(left) == outcome.0 && *final(right) == outcome.1 && r == outcome.2
        }),
{
    if type_eq(&left.ctype, &right.ctype) {
        true
    } else if left.ctype.is_void_pointer() || left.ctype.is_char_pointer() || left.is_null() {
        left.ctype = right.ctype.clone();
        true
    } else if right.ctype.is_void_pointer() || right.ctype.is_char_pointer() || right.is_null() {
        right.ctype = left.ctype.clone();
        true
    } else {
        false
    }
}

/// What `pointer_promote` leaves behind: the possibly retyped operands and
/// whether they were compatible.
pub open spec fn spec_pointer_promote(left: Expr, right: Expr) -> (Expr, Expr, bool) {
    if left.ctype == right.ctype {
        (left, right, true)
    } else if left.ctype.spec_is_void_pointer() || left.ctype.spec_is_char_pointer()
        || left.spec_is_null() {
        (Expr { ctype: right.ctype, expr: left.expr, lval: left.lval, location: left.location },
            right,
            true,
        )
    } else if right.ctype.spec_is_void_pointer() || right.ctype.spec_is_char_pointer()
        || right.spec_is_null() {
        (left,
            Expr { ctype: left.ctype, expr: right.expr, lval: right.lval, location: right.location },
            true,
        )
    } else {
        (left, right, false)
    }
}

/// Decay strips addressability for good: applying it twice yields exactly
/// what one application yields.
pub proof fn lemma_rval_idempotent(e: Expr)
    ensures
        spec_rval(spec_rval(e)) == spec_rval(e),
{
}

} // verus!
