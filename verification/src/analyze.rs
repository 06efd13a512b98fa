//! The expression lowering pass: a single entry point maps each untyped
//! node to a typed node, dispatching on the syntactic operator category and
//! recursing child-first, reporting problems to the diagnostics channel and
//! continuing with a best-effort typed result rather than aborting.

use vstd::prelude::*;
use crate::ast;
use crate::convert::spec_implicit_cast;
use crate::convert::spec_implicit_cast_diags;
use crate::convert::spec_promote_diags;
use crate::convert::spec_promote_pair;
use crate::convert::spec_rval;
use crate::diag::Diagnostic;
use crate::diag::ErrorHandler;
use crate::diag::NotAssignableReason;
use crate::diag::SemanticError;
use crate::hir::AssignmentToken;
use crate::hir::BinaryOp;
use crate::hir::ComparisonToken;
use crate::hir::Expr;
use crate::hir::ExprKind;
use crate::hir::Literal;
use crate::hir::Location;
use crate::hir::Metadata;
use crate::hir::StorageClass;
use crate::scope::Scope;
use crate::scope::ScopeEntry;
use crate::scope::spec_lookup;
use crate::types::ArrayType;
use crate::types::Qualifiers;
use crate::types::Type;
use crate::types::type_eq;

verus! {

/// The interned handle reserved for the hidden temporary that compound
/// assignment introduces; the interning collaborator never hands it out for
/// a source-level name.
pub const COMPOUND_TMP_NAME: u64 = 0xFFFF_FFFF_FFFF_FFFF;

/// The type a constant carries: character constants are signed-char-width,
/// unsuffixed integer constants signed long, unsigned-marked ones unsigned
/// long, floating constants `Double`, and a string constant a fixed array
/// of signed char of its content length.
pub open spec fn spec_literal(lit: Literal, location: Location) -> Expr {
    let ctype = match lit {
        Literal::Char(_) => Type::Char(true),
        Literal::Int(_) => Type::Long(true),
        Literal::UnsignedInt(_) => Type::Long(false),
        Literal::Float(_) => Type::Double,
        Literal::Str(_, len) => Type::Array(Box::new(Type::Char(true)), ArrayType::Fixed(len)),
    };
    Expr { lval: false, ctype, location, expr: ExprKind::Literal(lit) }
}

/// Type a constant.
pub fn literal(lit: Literal, location: Location) -> (r: Expr)
    ensures
        r == spec_literal(lit, location),
{
    let ctype = match lit {
        Literal::Char(_) => Type::Char(true),
        Literal::Int(_) => Type::Long(true),
        Literal::UnsignedInt(_) => Type::Long(false),
        Literal::Float(_) => Type::Double,
        Literal::Str(_, len) => Type::Array(Box::new(Type::Char(true)), ArrayType::Fixed(len)),
    };
    Expr { lval: false, ctype, location, expr: ExprKind::Literal(lit) }
}

/// What the integer-only operators (bitwise and shift families) produce:
/// a `NonIntegralExpr` report for the first non-integral operand, then both
/// operands promoted and the node typed as the promoted right operand.
pub open spec fn spec_integer_op(left: Expr, right: Expr, op: BinaryOp) -> (Expr, Seq<Diagnostic>) {
    let location = left.location.spec_merge(right.location);
    let pre = if !left.ctype.spec_is_integral() {
        seq![(Diagnostic { kind: SemanticError::NonIntegralExpr(left.ctype), location })]
    } else if !right.ctype.spec_is_integral() {
        seq![(Diagnostic { kind: SemanticError::NonIntegralExpr(right.ctype), location })]
    } else {
        Seq::empty()
    };
    let pair = spec_promote_pair(left, right);
    (Expr {
        ctype: pair.1.ctype,
        expr: ExprKind::Binary(op, Box::new(pair.0), Box::new(pair.1)),
        lval: false,
        location,
    }, pre + spec_promote_diags(left, right))
}

/// What the multiplicative operators produce: `%` demands integral
/// operands, `*` and `/` arithmetic ones; either way both operands are
/// promoted and the node typed as the promoted left operand.
pub open spec fn spec_mul(left: Expr, right: Expr, op: BinaryOp) -> (Expr, Seq<Diagnostic>) {
    let location = left.location.spec_merge(right.location);
    let pre = if op == BinaryOp::Mod && !(left.ctype.spec_is_integral()
        && right.ctype.spec_is_integral()) {
        seq![(Diagnostic { kind: SemanticError::NonIntegralModulo(left.ctype, right.ctype), location })]
    } else if !(op == BinaryOp::Mod) && !(left.ctype.spec_is_arithmetic()
        && right.ctype.spec_is_arithmetic()) {
        seq![
            (Diagnostic {
                kind: SemanticError::NonArithmeticOperands(op, left.ctype, right.ctype),
                location,
            }),
        ]
    } else {
        Seq::empty()
    };
    let pair = spec_promote_pair(left, right);
    (Expr {
        ctype: pair.0.ctype,
        location,
        lval: false,
        expr: ExprKind::Binary(op, Box::new(pair.0), Box::new(pair.1)),
    }, pre + spec_promote_diags(left, right))
}

/// The pointee through which an additive operand pair routes to pointer
/// arithmetic: `base` must be a pointer or array with a complete pointee and
/// `index` integral.
pub open spec fn spec_index_pointee(base: Expr, index: Expr) -> Option<Type> {
    match base.ctype {
        Type::Pointer(to, _) => if index.ctype.spec_is_integral() && to.spec_is_complete() {
            Some(*to)
        } else {
            None
        },
        Type::Array(to, _) => if index.ctype.spec_is_integral() && to.spec_is_complete() {
            Some(*to)
        } else {
            None
        },
        _ => None,
    }
}

/// The address-scaling subtree pointer arithmetic builds:
/// `base + (cast(element_size) * index)`, with the multiplication and cast
/// typed at the base pointer's own representation width. An undeterminable
/// element size is reported and substituted by one.
pub open spec fn spec_pointer_arithmetic(
    base: Expr,
    index: Expr,
    pointee: Type,
    location: Location,
) -> (Expr, Seq<Diagnostic>) {
    let offset = spec_rval(
        Expr {
            lval: false,
            location: index.location,
            ctype: base.ctype,
            expr: ExprKind::Cast(Box::new(index)),
        },
    );
    let sized: (u64, Seq<Diagnostic>) = match pointee.spec_sizeof() {
        Some(s) => (s, Seq::empty()),
        None => (1u64,
            seq![
                (Diagnostic { kind: SemanticError::PointerAddUnknownSize(base.ctype), location }),
            ],
        ),
    };
    let size_literal = spec_literal(Literal::UnsignedInt(sized.0), offset.location);
    let size_cast = Expr {
        lval: false,
        location: offset.location,
        ctype: offset.ctype,
        expr: ExprKind::Cast(Box::new(size_literal)),
    };
    let scaled = Expr {
        lval: false,
        location: offset.location,
        ctype: offset.ctype,
        expr: ExprKind::Binary(BinaryOp::Mul, Box::new(size_cast), Box::new(offset)),
    };
    (Expr {
        lval: false,
        location,
        ctype: base.ctype,
        expr: ExprKind::Binary(BinaryOp::Add, Box::new(base), Box::new(scaled)),
    }, sized.1)
}

/// What the additive operators produce. Pointer arithmetic takes priority:
/// pointer-or-array plus-or-minus integral, and for `+` alone integral plus
/// pointer-or-array. Arithmetic pairs are promoted normally; the difference
/// of two identical complete-object pointers keeps that pointer type (and
/// the lvalue flag, a deliberate placeholder choice); anything else is an
/// `InvalidAdd`.
pub open spec fn spec_add(left: Expr, right: Expr, op: BinaryOp) -> (Expr, Seq<Diagnostic>) {
    let is_add = (op == BinaryOp::Add);
    let location = left.location.spec_merge(right.location);
    match spec_index_pointee(left, right) {
        Some(to) => spec_pointer_arithmetic(spec_rval(left), spec_rval(right), to, location),
        None => match (if is_add {
            spec_index_pointee(right, left)
        } else {
            None::<Type>
        }) {
            Some(to) => spec_pointer_arithmetic(spec_rval(right), spec_rval(left), to, location),
            None => if left.ctype.spec_is_arithmetic() && right.ctype.spec_is_arithmetic() {
                let pair = spec_promote_pair(left, right);
                (Expr {
                    ctype: pair.0.ctype,
                    lval: false,
                    location,
                    expr: ExprKind::Binary(op, Box::new(pair.0), Box::new(pair.1)),
                }, spec_promote_diags(left, right))
            } else if !is_add && left.ctype.spec_is_pointer_to_complete_object() && left.ctype
                == right.ctype {
                (Expr {
                    ctype: left.ctype,
                    lval: true,
                    location,
                    expr: ExprKind::Binary(op, Box::new(left), Box::new(right)),
                }, Seq::empty())
            } else {
                (Expr {
                    ctype: left.ctype,
                    lval: false,
                    location,
                    expr: ExprKind::Binary(op, Box::new(left), Box::new(right)),
                }, seq![
                    (Diagnostic {
                        kind: SemanticError::InvalidAdd(op, left.ctype, right.ctype),
                        location,
                    }),
                ])
            },
        },
    }
}

/// What the relational and equality operators produce: arithmetic pairs are
/// promoted; otherwise both operands decay and must be equal pointer types,
/// or for equality alone a void-or-null pointer against any pointer. The
/// node is always `Bool` and never an lvalue.
pub open spec fn spec_relational(
    left: Expr,
    right: Expr,
    token: ComparisonToken,
    location: Location,
) -> (Expr, Seq<Diagnostic>) {
    if left.ctype.spec_is_arithmetic() && right.ctype.spec_is_arithmetic() {
        let pair = spec_promote_pair(left, right);
        (Expr {
            lval: false,
            location,
            ctype: Type::Bool,
            expr: ExprKind::Binary(
                BinaryOp::Compare(token),
                Box::new(pair.0),
                Box::new(pair.1),
            ),
        }, spec_promote_diags(left, right))
    } else {
        let l = spec_rval(left);
        let r = spec_rval(right);
        let compatible = (l.ctype.spec_is_pointer() && l.ctype == r.ctype) || ((token
            == ComparisonToken::EqualEqual || token == ComparisonToken::NotEqual) && ((
        l.ctype.spec_is_pointer() && r.ctype.spec_is_void_pointer()) || (
        l.ctype.spec_is_void_pointer() && r.ctype.spec_is_pointer()) || (l.spec_is_null()
            && r.ctype.spec_is_pointer()) || (l.ctype.spec_is_pointer() && r.spec_is_null())));
        let diags = if compatible {
            Seq::empty()
        } else {
            seq![
                (Diagnostic {
                    kind: SemanticError::InvalidRelationalType(token, l.ctype, r.ctype),
                    location,
                }),
            ]
        };
        (Expr {
            lval: false,
            location,
            ctype: Type::Bool,
            expr: ExprKind::Binary(BinaryOp::Compare(token), Box::new(l), Box::new(r)),
        }, diags)
    }
}

/// What an explicit cast produces: casting to `Void` always succeeds; a
/// non-scalar target, a float-pointer bridge, an aggregate source, or a
/// `Void` source is reported; every case still yields a best-effort `Cast`
/// node typed at the target.
pub open spec fn spec_explicit_cast(e: Expr, target: Type, location: Location) -> (
    Expr,
    Seq<Diagnostic>,
) {
    if target == Type::Void {
        (Expr {
            lval: false,
            ctype: Type::Void,
            expr: ExprKind::Cast(Box::new(e)),
            location,
        }, Seq::empty())
    } else {
        let diags = if !target.spec_is_scalar() {
            seq![(Diagnostic { kind: SemanticError::NonScalarCast(target), location })]
        } else if e.ctype.spec_is_floating() && target.spec_is_pointer()
            || e.ctype.spec_is_pointer() && target.spec_is_floating() {
            seq![(Diagnostic { kind: SemanticError::FloatPointerCast(target), location })]
        } else if e.ctype.spec_is_struct() {
            seq![(Diagnostic { kind: SemanticError::StructCast, location })]
        } else if e.ctype == Type::Void {
            seq![(Diagnostic { kind: SemanticError::VoidCast, location })]
        } else {
            Seq::empty()
        };
        (Expr { lval: false, expr: ExprKind::Cast(Box::new(e)), ctype: target, location }, diags)
    }
}

/// What identifier resolution produces: an undeclared name or a typedef
/// name in expression context is reported and replaced by an `Int` zero; a
/// name matching an enumerator of the resolved `Enum` type becomes an
/// integer literal of that enum type carrying the enumerator's value;
/// anything else is an lvalue reference to the declared type.
pub open spec fn spec_parse_id(name: u64, location: Location, sc: Seq<ScopeEntry>) -> (
    Expr,
    Seq<Diagnostic>,
) {
    match spec_lookup(sc, name) {
        None => (Expr::spec_zero(location),
            seq![(Diagnostic { kind: SemanticError::UndeclaredVar(name), location })],
        ),
        Some(meta) => if meta.storage_class == StorageClass::Typedef {
            (Expr::spec_zero(location),
                seq![(Diagnostic { kind: SemanticError::TypedefInExpressionContext, location })],
            )
        } else {
            match meta.ctype {
                Type::Enum(tag, members) => match members.spec_find(name) {
                    Some(value) => (Expr {
                        ctype: Type::Enum(tag, members),
                        location,
                        lval: false,
                        expr: ExprKind::Literal(Literal::Int(value)),
                    }, Seq::empty()),
                    None => (Expr::spec_id(meta, location), Seq::empty()),
                },
                _ => (Expr::spec_id(meta, location), Seq::empty()),
            }
        },
    }
}

/// Why an expression fails the modifiable-lvalue check, if it does: it must
/// be an lvalue of complete, non-array type; a directly named variable must
/// not be `const`-qualified, and an aggregate must have no `const` member.
pub open spec fn spec_modifiable_lval(e: Expr) -> Option<NotAssignableReason> {
    if !e.lval {
        Some(NotAssignableReason::Rvalue)
    } else if !e.ctype.spec_is_complete() {
        Some(NotAssignableReason::Incomplete)
    } else if match e.expr {
        ExprKind::Id(meta) => meta.qualifiers.c_const,
        _ => false,
    } {
        Some(NotAssignableReason::ConstVariable)
    } else {
        match e.ctype {
            Type::Array(_, _) => Some(NotAssignableReason::IsArray),
            Type::Struct(info) => if info.has_const_member {
                Some(NotAssignableReason::ConstMember)
            } else {
                None
            },
            Type::Union(info) => if info.has_const_member {
                Some(NotAssignableReason::ConstMember)
            } else {
                None
            },
            _ => None,
        }
    }
}

/// The metadata of the hidden temporary compound assignment declares.
pub open spec fn spec_compound_tmp(ctype: Type) -> Metadata {
    Metadata {
        id: COMPOUND_TMP_NAME,
        ctype,
        qualifiers: Qualifiers::spec_none(),
        storage_class: StorageClass::Register,
    }
}

/// What the compound-assignment desugaring hands the underlying operator
/// rule and how: the rule is selected by the token. `Equal` never reaches
/// this function.
pub open spec fn spec_desugar(left: Expr, right: Expr, token: AssignmentToken) -> (
    Expr,
    Seq<Diagnostic>,
) {
    match token {
        AssignmentToken::Equal => (left, Seq::empty()),
        AssignmentToken::OrEqual => spec_integer_op(left, right, BinaryOp::BitwiseOr),
        AssignmentToken::AndEqual => spec_integer_op(left, right, BinaryOp::BitwiseAnd),
        AssignmentToken::XorEqual => spec_integer_op(left, right, BinaryOp::Xor),
        AssignmentToken::ShlEqual => spec_integer_op(left, right, BinaryOp::Shl),
        AssignmentToken::ShrEqual => spec_integer_op(left, right, BinaryOp::Shr),
        AssignmentToken::MulEqual => spec_mul(left, right, BinaryOp::Mul),
        AssignmentToken::DivEqual => spec_mul(left, right, BinaryOp::Div),
        AssignmentToken::ModEqual => spec_mul(left, right, BinaryOp::Mod),
        AssignmentToken::AddEqual => spec_add(left, right, BinaryOp::Add),
        AssignmentToken::SubEqual => spec_add(left, right, BinaryOp::Sub),
    }
}

/// What an assignment produces. Simple assignment validates the left side,
/// converts the right side to its type, and yields a non-lvalue `Assign`
/// node of that type. Compound assignment introduces a hidden temporary
/// `tmp` of the left side's type and lowers to
/// `tmp := lhs` as the target of `tmp := (tmp op rhs)`, so the left side
/// occurs exactly once and the temporary is referenced exactly twice.
pub open spec fn spec_assignment(
    lval: Expr,
    rval: Expr,
    token: AssignmentToken,
    location: Location,
) -> (Expr, Seq<Diagnostic>) {
    let lval_diags = match spec_modifiable_lval(lval) {
        Some(why) => seq![
            (Diagnostic { kind: SemanticError::NotAssignable(why), location }),
        ],
        None => Seq::empty(),
    };
    if token == AssignmentToken::Equal {
        let converted = spec_implicit_cast(rval, lval.ctype);
        (Expr {
            ctype: lval.ctype,
            lval: false,
            location,
            expr: ExprKind::Binary(BinaryOp::Assign, Box::new(lval), Box::new(converted)),
        }, lval_diags + spec_implicit_cast_diags(rval, lval.ctype))
    } else {
        let meta = spec_compound_tmp(lval.ctype);
        let tmp_id = Expr {
            ctype: lval.ctype,
            lval: false,
            location: lval.location,
            expr: ExprKind::Id(meta),
        };
        let tmp_assign = Expr {
            ctype: lval.ctype,
            lval: true,
            location,
            expr: ExprKind::Binary(BinaryOp::Assign, Box::new(tmp_id), Box::new(lval)),
        };
        let tmp_ref = Expr { ctype: lval.ctype, lval: true, location, expr: ExprKind::Id(meta) };
        let step = spec_desugar(tmp_ref, rval, token);
        (Expr {
            ctype: lval.ctype,
            lval: false,
            location,
            expr: ExprKind::Binary(BinaryOp::Assign, Box::new(tmp_assign), Box::new(step.0)),
        }, lval_diags + step.1)
    }
}

/// The whole pass as one function of the untyped tree and the visible
/// declarations: the typed tree and the diagnostics, in reporting order.
pub open spec fn spec_lower(e: ast::Expr, sc: Seq<ScopeEntry>) -> (Expr, Seq<Diagnostic>)
    decreases e,
{
    match e.data {
        ast::ExprKind::Literal(lit) => (spec_literal(lit, e.location), Seq::empty()),
        ast::ExprKind::Id(name) => spec_parse_id(name, e.location, sc),
        ast::ExprKind::Cast(target, inner) => {
            let location = inner.location;
            let lowered = spec_lower(*inner, sc);
            let cast = spec_explicit_cast(lowered.0, target, location);
            (cast.0, lowered.1 + cast.1)
        },
        ast::ExprKind::Shift(l, r, direction) => {
            let op = if direction {
                BinaryOp::Shl
            } else {
                BinaryOp::Shr
            };
            let ll = spec_lower(*l, sc);
            let rr = spec_lower(*r, sc);
            let node = spec_integer_op(ll.0, rr.0, op);
            (node.0, ll.1 + rr.1 + node.1)
        },
        ast::ExprKind::BitwiseAnd(l, r) => {
            let ll = spec_lower(*l, sc);
            let rr = spec_lower(*r, sc);
            let node = spec_integer_op(ll.0, rr.0, BinaryOp::BitwiseAnd);
            (node.0, ll.1 + rr.1 + node.1)
        },
        ast::ExprKind::BitwiseOr(l, r) => {
            let ll = spec_lower(*l, sc);
            let rr = spec_lower(*r, sc);
            let node = spec_integer_op(ll.0, rr.0, BinaryOp::BitwiseOr);
            (node.0, ll.1 + rr.1 + node.1)
        },
        ast::ExprKind::Xor(l, r) => {
            let ll = spec_lower(*l, sc);
            let rr = spec_lower(*r, sc);
            let node = spec_integer_op(ll.0, rr.0, BinaryOp::Xor);
            (node.0, ll.1 + rr.1 + node.1)
        },
        ast::ExprKind::Compare(l, r, token) => {
            let location = l.location.spec_merge(r.location);
            let ll = spec_lower(*l, sc);
            let rr = spec_lower(*r, sc);
            let node = spec_relational(ll.0, rr.0, token, location);
            (node.0, ll.1 + rr.1 + node.1)
        },
        ast::ExprKind::Mul(l, r) => {
            let ll = spec_lower(*l, sc);
            let rr = spec_lower(*r, sc);
            let node = spec_mul(ll.0, rr.0, BinaryOp::Mul);
            (node.0, ll.1 + rr.1 + node.1)
        },
        ast::ExprKind::Div(l, r) => {
            let ll = spec_lower(*l, sc);
            let rr = spec_lower(*r, sc);
            let node = spec_mul(ll.0, rr.0, BinaryOp::Div);
            (node.0, ll.1 + rr.1 + node.1)
        },
        ast::ExprKind::Mod(l, r) => {
            let ll = spec_lower(*l, sc);
            let rr = spec_lower(*r, sc);
            let node = spec_mul(ll.0, rr.0, BinaryOp::Mod);
            (node.0, ll.1 + rr.1 + node.1)
        },
        ast::ExprKind::Add(l, r) => {
            let ll = spec_lower(*l, sc);
            let rr = spec_lower(*r, sc);
            let node = spec_add(ll.0, rr.0, BinaryOp::Add);
            (node.0, ll.1 + rr.1 + node.1)
        },
        ast::ExprKind::Sub(l, r) => {
            let ll = spec_lower(*l, sc);
            let rr = spec_lower(*r, sc);
            let node = spec_add(ll.0, rr.0, BinaryOp::Sub);
            (node.0, ll.1 + rr.1 + node.1)
        },
        ast::ExprKind::Assign(l, r, token) => {
            let ll = spec_lower(*l, sc);
            let rr = spec_lower(*r, sc);
            let node = spec_assignment(ll.0, rr.0, token, e.location);
            (node.0, ll.1 + rr.1 + node.1)
        },
    }
}

/// Neither the visible declarations nor the open frames changed between the
/// two analyzer states.
pub open spec fn spec_scope_unchanged(pre: &Analyzer, post: &Analyzer) -> bool {
    post.scope.entries@ == pre.scope.entries@ && post.scope.frame_starts@
        == pre.scope.frame_starts@
}

impl Expr {
    /// Check the modifiable-lvalue rules, returning the `NotAssignable`
    /// error to report on violation.
    pub fn modifiable_lval(&self) -> (r: Result<(), SemanticError>)
        ensures
            r == match spec_modifiable_lval(*self) {
                Some(why) => Result::<(), SemanticError>::Err(SemanticError::NotAssignable(why)),
                None => Result::<(), SemanticError>::Ok(()),
            },
    {
        if !self.lval {
            return Err(SemanticError::NotAssignable(NotAssignableReason::Rvalue));
        }
        if !self.ctype.is_complete() {
            return Err(SemanticError::NotAssignable(NotAssignableReason::Incomplete));
        }
        match &self.expr {
            ExprKind::Id(meta) => {
                if meta.qualifiers.c_const {
                    return Err(SemanticError::NotAssignable(NotAssignableReason::ConstVariable));
                }
            },
            _ => {},
        }
        match &self.ctype {
            Type::Array(_, _) => Err(SemanticError::NotAssignable(NotAssignableReason::IsArray)),
            Type::Struct(info) => if info.has_const_member {
                Err(SemanticError::NotAssignable(NotAssignableReason::ConstMember))
            } else {
                Ok(())
            },
            Type::Union(info) => if info.has_const_member {
                Err(SemanticError::NotAssignable(NotAssignableReason::ConstMember))
            } else {
                Ok(())
            },
            _ => Ok(()),
        }
    }
}

/// The analyzer: the scope stack it consults and the diagnostics channel it
/// reports to.
pub struct Analyzer {
    pub scope: Scope,
    pub error_handler: ErrorHandler,
}

impl Analyzer {
    pub fn new() -> (r: Analyzer)
        ensures
            r.scope.entries@ == Seq::<ScopeEntry>::empty(),
            r.scope.frame_starts@ == Seq::<usize>::empty(),
            r.error_handler.errors@ == Seq::<Diagnostic>::empty(),
    {
        Analyzer { scope: Scope::new(), error_handler: ErrorHandler::new() }
    }

    /// Report one diagnostic.
    fn err(&mut self, kind: SemanticError, location: Location)
        ensures
            spec_scope_unchanged(old(self), final(self)),
            final(self).error_handler.errors@ == old(self).error_handler.errors@.push(
                (Diagnostic { kind, location }),
            ),
    {
        self.error_handler.error(kind, location);
    }

    /// Type an integer-only operator application (bitwise and shifts).
    pub fn parse_integer_op(&mut self, left: Expr, right: Expr, op: BinaryOp) -> (r: Expr)
        ensures
            spec_scope_unchanged(old(self), final(self)),
            final(self).error_handler.errors@ == old(self).error_handler.errors@
                + spec_integer_op(left, right, op).1,
            r == spec_integer_op(left, right, op).0,
    {
        let ghost l0 = left;
        let ghost r0 = right;
        let location = left.location.merge(right.location);
        if !left.ctype.is_integral() {
            let offender = left.ctype.clone();
            self.err(SemanticError::NonIntegralExpr(offender), location);
        } else if !right.ctype.is_integral() {
            let offender = right.ctype.clone();
            self.err(SemanticError::NonIntegralExpr(offender), location);
        }
        let pair = Expr::binary_promote(left, right, &mut self.error_handler);
        let (promoted, next) = pair;
        let ctype = next.ctype.clone();
        let result = Expr {
            ctype,
            expr: ExprKind::Binary(op, Box::new(promoted), Box::new(next)),
            lval: false,
            location,
        };
        proof {
            assert(self.error_handler.errors@ =~= old(self).error_handler.errors@
                + spec_integer_op(l0, r0, op).1);
        }
        result
    }

    /// Type a multiplicative operator application.
    pub fn mul(&mut self, left: Expr, right: Expr, op: BinaryOp) -> (r: Expr)
        ensures
            spec_scope_unchanged(old(self), final(self)),
            final(self).error_handler.errors@ == old(self).error_handler.errors@ + spec_mul(
                left,
                right,
                op,
            ).1,
            r == spec_mul(left, right, op).0,
    {
        let ghost l0 = left;
        let ghost r0 = right;
        let location = left.location.merge(right.location);
        if matches!(op, BinaryOp::Mod) && !(left.ctype.is_integral() && right.ctype.is_integral()) {
            let lt = left.ctype.clone();
            let rt = right.ctype.clone();
            self.err(SemanticError::NonIntegralModulo(lt, rt), location);
        } else if !matches!(op, BinaryOp::Mod) && !(left.ctype.is_arithmetic()
            && right.ctype.is_arithmetic()) {
            let lt = left.ctype.clone();
            let rt = right.ctype.clone();
            self.err(SemanticError::NonArithmeticOperands(op, lt, rt), location);
        }
        let pair = Expr::binary_promote(left, right, &mut self.error_handler);
        let (promoted, next) = pair;
        let ctype = promoted.ctype.clone();
        let result = Expr {
            ctype,
            location,
            lval: false,
            expr: ExprKind::Binary(op, Box::new(promoted), Box::new(next)),
        };
        proof {
            assert(self.error_handler.errors@ =~= old(self).error_handler.errors@ + spec_mul(
                l0,
                r0,
                op,
            ).1);
        }
        result
    }

    /// Build the pointer-arithmetic subtree for a decayed base and index.
    fn pointer_arithmetic(&mut self, base: Expr, index: Expr, pointee: &Type, location: Location)
        -> (r: Expr)
        ensures
            spec_scope_unchanged(old(self), final(self)),
            final(self).error_handler.errors@ == old(self).error_handler.errors@
                + spec_pointer_arithmetic(base, index, *pointee, location).1,
            r == spec_pointer_arithmetic(base, index, *pointee, location).0,
    {
        let ghost b0 = base;
        let ghost i0 = index;
        let index_location = index.location;
        let base_ctype = base.ctype.clone();
        let offset = Expr {
            lval: false,
            location: index_location,
            ctype: base_ctype,
            expr: ExprKind::Cast(Box::new(index)),
        }.rval();
        let size: u64 = match pointee.sizeof() {
            Some(s) => s,
            None => {
                let bt = base.ctype.clone();
                self.err(SemanticError::PointerAddUnknownSize(bt), location);
                1
            },
        };
        let size_literal = literal(Literal::UnsignedInt(size), offset.location);
        let size_cast = Expr {
            lval: false,
            location: offset.location,
            ctype: offset.ctype.clone(),
            expr: ExprKind::Cast(Box::new(size_literal)),
        };
        let scaled_location = offset.location;
        let scaled_ctype = offset.ctype.clone();
        let scaled = Expr {
            lval: false,
            location: scaled_location,
            ctype: scaled_ctype,
            expr: ExprKind::Binary(BinaryOp::Mul, Box::new(size_cast), Box::new(offset)),
        };
        let result_ctype = base.ctype.clone();
        let result = Expr {
            lval: false,
            location,
            ctype: result_ctype,
            expr: ExprKind::Binary(BinaryOp::Add, Box::new(base), Box::new(scaled)),
        };
        proof {
            assert(self.error_handler.errors@ =~= old(self).error_handler.errors@
                + spec_pointer_arithmetic(b0, i0, *pointee, location).1);
        }
        result
    }

    /// Type an additive operator application, routing pointer or array
    /// operands with an integral index into pointer arithmetic.
    pub fn add(&mut self, left: Expr, right: Expr, op: BinaryOp) -> (r: Expr)
        ensures
            spec_scope_unchanged(old(self), final(self)),
            final(self).error_handler.errors@ == old(self).error_handler.errors@ + spec_add(
                left,
                right,
                op,
            ).1,
            r == spec_add(left, right, op).0,
    {
        let ghost l0 = left;
        let ghost r0 = right;
        let is_add = matches!(op, BinaryOp::Add);
        let location = left.location.merge(right.location);
        match index_pointee(&left, &right) {
            Some(to) => {
                let base = left.rval();
                let idx = right.rval();
                return self.pointer_arithmetic(base, idx, &to, location);
            },
            None => {},
        }
        if is_add {
            match index_pointee(&right, &left) {
                Some(to) => {
                    let base = right.rval();
                    let idx = left.rval();
                    return self.pointer_arithmetic(base, idx, &to, location);
                },
                None => {},
            }
        }
        if left.ctype.is_arithmetic() && right.ctype.is_arithmetic() {
            let pair = Expr::binary_promote(left, right, &mut self.error_handler);
            let (promoted, next) = pair;
            let ctype = promoted.ctype.clone();
            let result = Expr {
                ctype,
                lval: false,
                location,
                expr: ExprKind::Binary(op, Box::new(promoted), Box::new(next)),
            };
            proof {
                assert(self.error_handler.errors@ =~= old(self).error_handler.errors@ + spec_add(
                    l0,
                    r0,
                    op,
                ).1);
            }
            result
        } else if !is_add && left.ctype.is_pointer_to_complete_object() && type_eq(
            &left.ctype,
            &right.ctype,
        ) {
            proof {
                assert(old(self).error_handler.errors@ + Seq::<Diagnostic>::empty() =~= old(
                    self,
                ).error_handler.errors@);
            }
            let ctype = left.ctype.clone();
            Expr {
                ctype,
                lval: true,
                location,
                expr: ExprKind::Binary(op, Box::new(left), Box::new(right)),
            }
        } else {
            let lt = left.ctype.clone();
            let rt = right.ctype.clone();
            self.err(SemanticError::InvalidAdd(op, lt, rt), location);
            let ctype = left.ctype.clone();
            let result = Expr {
                ctype,
                lval: false,
                location,
                expr: ExprKind::Binary(op, Box::new(left), Box::new(right)),
            };
            proof {
                assert(self.error_handler.errors@ =~= old(self).error_handler.errors@ + spec_add(
                    l0,
                    r0,
                    op,
                ).1);
            }
            result
        }
    }

    /// Type a relational or equality operator application on lowered
    /// operands; `location` is the span of the untyped operand pair.
    pub fn relational_expr(
        &mut self,
        left: Expr,
        right: Expr,
        token: ComparisonToken,
        location: Location,
    ) -> (r: Expr)
        ensures
            spec_scope_unchanged(old(self), final(self)),
            final(self).error_handler.errors@ == old(self).error_handler.errors@ + spec_relational(
                left,
                right,
                token,
                location,
            ).1,
            r == spec_relational(left, right, token, location).0,
    {
        let ghost l0 = left;
        let ghost r0 = right;
        if left.ctype.is_arithmetic() && right.ctype.is_arithmetic() {
            let pair = Expr::binary_promote(left, right, &mut self.error_handler);
            let (promoted, next) = pair;
            Expr {
                lval: false,
                location,
                ctype: Type::Bool,
                expr: ExprKind::Binary(
                    BinaryOp::Compare(token),
                    Box::new(promoted),
                    Box::new(next),
                ),
            }
        } else {
            let l = left.rval();
            let r = right.rval();
            let equality = matches!(token, ComparisonToken::EqualEqual)
                || matches!(token, ComparisonToken::NotEqual);
            let compatible = (l.ctype.is_pointer() && type_eq(&l.ctype, &r.ctype)) || (equality && (
            (l.ctype.is_pointer() && r.ctype.is_void_pointer()) || (l.ctype.is_void_pointer()
                && r.ctype.is_pointer()) || (l.is_null() && r.ctype.is_pointer()) || (
            l.ctype.is_pointer() && r.is_null())));
            if !compatible {
                let lt = l.ctype.clone();
                let rt = r.ctype.clone();
                self.err(SemanticError::InvalidRelationalType(token, lt, rt), location);
            }
            proof {
                assert(self.error_handler.errors@ =~= old(self).error_handler.errors@
                    + spec_relational(l0, r0, token, location).1);
            }
            Expr {
                lval: false,
                location,
                ctype: Type::Bool,
                expr: ExprKind::Binary(BinaryOp::Compare(token), Box::new(l), Box::new(r)),
            }
        }
    }

    /// Validate an explicit cast of a lowered operand to a written type;
    /// `location` is the span of the untyped operand.
    pub fn explicit_cast(&mut self, expr: Expr, ctype: Type, location: Location) -> (r: Expr)
        ensures
            spec_scope_unchanged(old(self), final(self)),
            final(self).error_handler.errors@ == old(self).error_handler.errors@
                + spec_explicit_cast(expr, ctype, location).1,
            r == spec_explicit_cast(expr, ctype, location).0,
    {
        let ghost e0 = expr;
        let ghost t0 = ctype;
        if type_eq(&ctype, &Type::Void) {
            // casting anything to void is allowed; the node signals the
            // backend to discard the value
            return Expr {
                lval: false,
                ctype,
                expr: ExprKind::Cast(Box::new(expr)),
                location,
            };
        }
        if !ctype.is_scalar() {
            let t = ctype.clone();
            self.err(SemanticError::NonScalarCast(t), location);
        } else if expr.ctype.is_floating() && ctype.is_pointer() || expr.ctype.is_pointer()
            && ctype.is_floating() {
            let t = ctype.clone();
            self.err(SemanticError::FloatPointerCast(t), location);
        } else if expr.ctype.is_struct() {
            // aggregate casts are deliberately unsupported
            self.err(SemanticError::StructCast, location);
        } else if type_eq(&expr.ctype, &Type::Void) {
            self.err(SemanticError::VoidCast, location);
        }
        proof {
            assert(self.error_handler.errors@ =~= old(self).error_handler.errors@
                + spec_explicit_cast(e0, t0, location).1);
        }
        Expr { lval: false, expr: ExprKind::Cast(Box::new(expr)), ctype, location }
    }

    /// Resolve an identifier against the scope stack.
    pub fn parse_id(&mut self, name: u64, location: Location) -> (r: Expr)
        ensures
            spec_scope_unchanged(old(self), final(self)),
            final(self).error_handler.errors@ == old(self).error_handler.errors@ + spec_parse_id(
                name,
                location,
                old(self).scope.entries@,
            ).1,
            r == spec_parse_id(name, location, old(self).scope.entries@).0,
    {
        match self.scope.get(name) {
            None => {
                self.err(SemanticError::UndeclaredVar(name), location);
                Expr::zero(location)
            },
            Some(meta) => {
                if matches!(meta.storage_class, StorageClass::Typedef) {
                    self.err(SemanticError::TypedefInExpressionContext, location);
                    return Expr::zero(location);
                }
                proof {
                    assert(self.error_handler.errors@ + Seq::<Diagnostic>::empty()
                        =~= self.error_handler.errors@);
                }
                match meta.ctype {
                    Type::Enum(tag, members) => match members.find(name) {
                        Some(value) => Expr {
                            ctype: Type::Enum(tag, members),
                            location,
                            lval: false,
                            expr: ExprKind::Literal(Literal::Int(value)),
                        },
                        None => Expr::id(
                            Metadata {
                                id: meta.id,
                                ctype: Type::Enum(tag, members),
                                qualifiers: meta.qualifiers,
                                storage_class: meta.storage_class,
                            },
                            location,
                        ),
                    },
                    other => Expr::id(
                        Metadata {
                            id: meta.id,
                            ctype: other,
                            qualifiers: meta.qualifiers,
                            storage_class: meta.storage_class,
                        },
                        location,
                    ),
                }
            },
        }
    }

    /// Apply the operator rule a compound-assignment token selects.
    fn desugar_op(&mut self, left: Expr, right: Expr, token: AssignmentToken) -> (r: Expr)
        requires
            token != AssignmentToken::Equal,
        ensures
            spec_scope_unchanged(old(self), final(self)),
            final(self).error_handler.errors@ == old(self).error_handler.errors@ + spec_desugar(
                left,
                right,
                token,
            ).1,
            r == spec_desugar(left, right, token).0,
    {
        match token {
            AssignmentToken::Equal => {
                proof {
                    assert(old(self).error_handler.errors@ + Seq::<Diagnostic>::empty() =~= old(
                        self,
                    ).error_handler.errors@);
                }
                left
            },
            AssignmentToken::OrEqual => self.parse_integer_op(left, right, BinaryOp::BitwiseOr),
            AssignmentToken::AndEqual => self.parse_integer_op(left, right, BinaryOp::BitwiseAnd),
            AssignmentToken::XorEqual => self.parse_integer_op(left, right, BinaryOp::Xor),
            AssignmentToken::ShlEqual => self.parse_integer_op(left, right, BinaryOp::Shl),
            AssignmentToken::ShrEqual => self.parse_integer_op(left, right, BinaryOp::Shr),
            AssignmentToken::MulEqual => self.mul(left, right, BinaryOp::Mul),
            AssignmentToken::DivEqual => self.mul(left, right, BinaryOp::Div),
            AssignmentToken::ModEqual => self.mul(left, right, BinaryOp::Mod),
            AssignmentToken::AddEqual => self.add(left, right, BinaryOp::Add),
            AssignmentToken::SubEqual => self.add(left, right, BinaryOp::Sub),
        }
    }

    /// Type an assignment of lowered operands; `location` is the span of
    /// the untyped assignment node.
    pub fn assignment_expr(
        &mut self,
        lval: Expr,
        rval: Expr,
        token: AssignmentToken,
        location: Location,
    ) -> (r: Expr)
        ensures
            spec_scope_unchanged(old(self), final(self)),
            final(self).error_handler.errors@ == old(self).error_handler.errors@ + spec_assignment(
                lval,
                rval,
                token,
                location,
            ).1,
            r == spec_assignment(lval, rval, token, location).0,
    {
        let ghost l0 = lval;
        let ghost r0 = rval;
        match lval.modifiable_lval() {
            Err(problem) => {
                self.err(problem, location);
            },
            Ok(()) => {},
        }
        if matches!(token, AssignmentToken::Equal) {
            let converted = if !type_eq(&rval.ctype, &lval.ctype) {
                rval.implicit_cast(&lval.ctype, &mut self.error_handler)
            } else {
                rval
            };
            let ctype = lval.ctype.clone();
            let result = Expr {
                ctype,
                lval: false,  // a chained assignment to the result is invalid
                location,
                expr: ExprKind::Binary(BinaryOp::Assign, Box::new(lval), Box::new(converted)),
            };
            proof {
                assert(self.error_handler.errors@ =~= old(self).error_handler.errors@
                    + spec_assignment(l0, r0, token, location).1);
            }
            result
        } else {
            // The left side must be evaluated exactly once even when it has
            // side effects, so it is stored into a hidden temporary declared
            // in a transient scope frame, and the operator is applied to the
            // temporary instead.
            let ctype = lval.ctype.clone();
            let meta = Metadata {
                id: COMPOUND_TMP_NAME,
                ctype,
                qualifiers: Qualifiers::none(),
                storage_class: StorageClass::Register,
            };
            let ghost entries0 = self.scope.entries@;
            let ghost frames0 = self.scope.frame_starts@;
            self.scope.enter();
            self.scope.insert(COMPOUND_TMP_NAME, meta.clone());
            proof {
                assert(self.scope.frame_starts@.last() == entries0.len());
                assert(self.scope.entries@.len() == entries0.len() + 1);
            }
            self.scope.exit();
            proof {
                assert(self.scope.entries@ =~= entries0);
                assert(self.scope.frame_starts@ =~= frames0);
            }
            let tmp_ref = Expr {
                ctype: meta.ctype.clone(),
                lval: true,
                location,
                expr: ExprKind::Id(meta.clone()),
            };
            let tmp_id = Expr {
                ctype: meta.ctype.clone(),
                lval: false,
                location: lval.location,
                expr: ExprKind::Id(meta),
            };
            let result_ctype = tmp_id.ctype.clone();
            let assign_ctype = tmp_id.ctype.clone();
            let tmp_assign = Expr {
                ctype: assign_ctype,
                lval: true,
                location,
                expr: ExprKind::Binary(BinaryOp::Assign, Box::new(tmp_id), Box::new(lval)),
            };
            let step = self.desugar_op(tmp_ref, rval, token);
            let result = Expr {
                ctype: result_ctype,
                lval: false,
                location,
                expr: ExprKind::Binary(BinaryOp::Assign, Box::new(tmp_assign), Box::new(step)),
            };
            proof {
                assert(self.error_handler.errors@ =~= old(self).error_handler.errors@
                    + spec_assignment(l0, r0, token, location).1);
            }
            result
        }
    }

    /// The single entry point: lower one untyped expression to a typed one,
    /// recursing child-first so the operator rules always receive lowered
    /// operands.
    #[verifier::rlimit(100)]
    #[verifier::spinoff_prover]
    pub fn parse_expr(&mut self, expr: ast::Expr) -> (r: Expr)
        ensures
            spec_scope_unchanged(old(self), final(self)),
            final(self).error_handler.errors@ == old(self).error_handler.errors@ + spec_lower(
                expr,
                old(self).scope.entries@,
            ).1,
            r == spec_lower(expr, old(self).scope.entries@).0,
        decreases expr,
    {
        let ghost e0 = expr;
        let ghost sc = self.scope.entries@;
        let location = expr.location;
        match expr.data {
            ast::ExprKind::Literal(lit) => {
                proof {
                    assert(self.error_handler.errors@ + Seq::<Diagnostic>::empty()
                        =~= self.error_handler.errors@);
                }
                literal(lit, location)
            },
            ast::ExprKind::Id(name) => self.parse_id(name, location),
            ast::ExprKind::Cast(target, inner) => {
                let inner_location = inner.location;
                let lowered = self.parse_expr(*inner);
                let result = self.explicit_cast(lowered, target, inner_location);
                proof {
                    assert(self.error_handler.errors@ =~= old(self).error_handler.errors@
                        + spec_lower(e0, sc).1);
                }
                result
            },
            ast::ExprKind::Shift(l, r, direction) => {
                let op = if direction {
                    BinaryOp::Shl
                } else {
                    BinaryOp::Shr
                };
                let ll = self.parse_expr(*l);
                let rr = self.parse_expr(*r);
                let result = self.parse_integer_op(ll, rr, op);
                proof {
                    assert(self.error_handler.errors@ =~= old(self).error_handler.errors@
                        + spec_lower(e0, sc).1);
                }
                result
            },
            ast::ExprKind::BitwiseAnd(l, r) => {
                let ll = self.parse_expr(*l);
                let rr = self.parse_expr(*r);
                let result = self.parse_integer_op(ll, rr, BinaryOp::BitwiseAnd);
                proof {
                    assert(self.error_handler.errors@ =~= old(self).error_handler.errors@
                        + spec_lower(e0, sc).1);
                }
                result
            },
            ast::ExprKind::BitwiseOr(l, r) => {
                let ll = self.parse_expr(*l);
                let rr = self.parse_expr(*r);
                let result = self.parse_integer_op(ll, rr, BinaryOp::BitwiseOr);
                proof {
                    assert(self.error_handler.errors@ =~= old(self).error_handler.errors@
                        + spec_lower(e0, sc).1);
                }
                result
            },
            ast::ExprKind::Xor(l, r) => {
                let ll = self.parse_expr(*l);
                let rr = self.parse_expr(*r);
                let result = self.parse_integer_op(ll, rr, BinaryOp::Xor);
                proof {
                    assert(self.error_handler.errors@ =~= old(self).error_handler.errors@
                        + spec_lower(e0, sc).1);
                }
                result
            },
            ast::ExprKind::Compare(l, r, token) => {
                let operand_span = l.location.merge(r.location);
                let ll = self.parse_expr(*l);
                let rr = self.parse_expr(*r);
                let result = self.relational_expr(ll, rr, token, operand_span);
                proof {
                    assert(self.error_handler.errors@ =~= old(self).error_handler.errors@
                        + spec_lower(e0, sc).1);
                }
                result
            },
            ast::ExprKind::Mul(l, r) => {
                let ll = self.parse_expr(*l);
                let rr = self.parse_expr(*r);
                let result = self.mul(ll, rr, BinaryOp::Mul);
                proof {
                    assert(self.error_handler.errors@ =~= old(self).error_handler.errors@
                        + spec_lower(e0, sc).1);
                }
                result
            },
            ast::ExprKind::Div(l, r) => {
                let ll = self.parse_expr(*l);
                let rr = self.parse_expr(*r);
                let result = self.mul(ll, rr, BinaryOp::Div);
                proof {
                    assert(self.error_handler.errors@ =~= old(self).error_handler.errors@
                        + spec_lower(e0, sc).1);
                }
                result
            },
            ast::ExprKind::Mod(l, r) => {
                let ll = self.parse_expr(*l);
                let rr = self.parse_expr(*r);
                let result = self.mul(ll, rr, BinaryOp::Mod);
                proof {
                    assert(self.error_handler.errors@ =~= old(self).error_handler.errors@
                        + spec_lower(e0, sc).1);
                }
                result
            },
            ast::ExprKind::Add(l, r) => {
                let ll = self.parse_expr(*l);
                let rr = self.parse_expr(*r);
                let result = self.add(ll, rr, BinaryOp::Add);
                proof {
                    assert(self.error_handler.errors@ =~= old(self).error_handler.errors@
                        + spec_lower(e0, sc).1);
                }
                result
            },
            ast::ExprKind::Sub(l, r) => {
                let ll = self.parse_expr(*l);
                let rr = self.parse_expr(*r);
                let result = self.add(ll, rr, BinaryOp::Sub);
                proof {
                    assert(self.error_handler.errors@ =~= old(self).error_handler.errors@
                        + spec_lower(e0, sc).1);
                }
                result
            },
            ast::ExprKind::Assign(l, r, token) => {
                let ll = self.parse_expr(*l);
                let rr = self.parse_expr(*r);
                let result = self.assignment_expr(ll, rr, token, location);
                proof {
                    assert(self.error_handler.errors@ =~= old(self).error_handler.errors@
                        + spec_lower(e0, sc).1);
                }
                result
            },
        }
    }
}

/// The pointee through which an additive pair routes to pointer arithmetic,
/// if it does.
fn index_pointee(base: &Expr, index: &Expr) -> (r: Option<Type>)
    ensures
        r == spec_index_pointee(*base, *index),
{
    match &base.ctype {
        Type::Pointer(to, _) => if index.ctype.is_integral() && to.is_complete() {
            Some((**to).clone())
        } else {
            None
        },
        Type::Array(to, _) => if index.ctype.is_integral() && to.is_complete() {
            Some((**to).clone())
        } else {
            None
        },
        _ => None,
    }
}

} // verus!
