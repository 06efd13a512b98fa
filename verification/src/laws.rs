//! Crosscutting statements about the pass as a whole, proved against the
//! lowering model: evaluation-count bookkeeping for compound assignment and
//! the recovery behavior of identifier resolution and assignment checking.

use vstd::prelude::*;
use crate::analyze::COMPOUND_TMP_NAME;
use crate::analyze::spec_add;
use crate::analyze::spec_assignment;
use crate::analyze::spec_compound_tmp;
use crate::analyze::spec_desugar;
use crate::analyze::spec_integer_op;
use crate::analyze::spec_lower;
use crate::analyze::spec_mul;
use crate::analyze::spec_parse_id;
use crate::analyze::spec_pointer_arithmetic;
use crate::ast;
use crate::convert::spec_implicit_cast;
use crate::convert::spec_promote_pair;
use crate::convert::spec_rval;
use crate::diag::Diagnostic;
use crate::diag::NotAssignableReason;
use crate::diag::SemanticError;
use crate::hir::AssignmentToken;
use crate::hir::BinaryOp;
use crate::hir::Expr;
use crate::hir::ExprKind;
use crate::hir::Location;
use crate::hir::Metadata;
use crate::scope::ScopeEntry;
use crate::scope::spec_lookup;
use crate::types::Type;

verus! {

/// How often an identifier node carrying `name` occurs in a typed tree.
pub open spec fn count_id(e: Expr, name: u64) -> nat
    decreases e,
{
    match e.expr {
        ExprKind::Literal(_) => 0,
        ExprKind::Id(meta) => if meta.id == name {
            1nat
        } else {
            0nat
        },
        ExprKind::Binary(_, l, r) => count_id(*l, name) + count_id(*r, name),
        ExprKind::Cast(inner) => count_id(*inner, name),
        ExprKind::Deref(inner) => count_id(*inner, name),
    }
}

/// Decay neither duplicates nor drops identifier references.
pub proof fn lemma_count_rval(e: Expr, name: u64)
    ensures
        count_id(spec_rval(e), name) == count_id(e, name),
{
}

/// Implicit casting neither duplicates nor drops identifier references.
pub proof fn lemma_count_implicit_cast(e: Expr, target: Type, name: u64)
    ensures
        count_id(spec_implicit_cast(e, target), name) == count_id(e, name),
{
}

/// The usual arithmetic conversion keeps each operand's references.
pub proof fn lemma_count_promote_pair(l: Expr, r: Expr, name: u64)
    ensures
        count_id(spec_promote_pair(l, r).0, name) == count_id(l, name),
        count_id(spec_promote_pair(l, r).1, name) == count_id(r, name),
{
    let ld = spec_rval(l);
    let rd = spec_rval(r);
    lemma_count_rval(l, name);
    lemma_count_rval(r, name);
    if ld.ctype.spec_is_promotable() && rd.ctype.spec_is_promotable() {
        let target = Type::spec_binary_promote(ld.ctype, rd.ctype);
        lemma_count_implicit_cast(ld, target, name);
        lemma_count_implicit_cast(rd, target, name);
    }
}

/// An integer-only operator node holds each operand exactly once.
pub proof fn lemma_count_integer_op(l: Expr, r: Expr, op: BinaryOp, name: u64)
    ensures
        count_id(spec_integer_op(l, r, op).0, name) == count_id(l, name) + count_id(r, name),
{
    lemma_count_promote_pair(l, r, name);
}

/// A multiplicative operator node holds each operand exactly once.
pub proof fn lemma_count_mul(l: Expr, r: Expr, op: BinaryOp, name: u64)
    ensures
        count_id(spec_mul(l, r, op).0, name) == count_id(l, name) + count_id(r, name),
{
    lemma_count_promote_pair(l, r, name);
}

/// The pointer-arithmetic subtree holds base and index exactly once; the
/// size literal it introduces carries no identifier.
pub proof fn lemma_count_pointer_arithmetic(
    base: Expr,
    index: Expr,
    pointee: Type,
    location: Location,
    name: u64,
)
    ensures
        count_id(spec_pointer_arithmetic(base, index, pointee, location).0, name) == count_id(
            base,
            name,
        ) + count_id(index, name),
{
    let cast_node = Expr {
        lval: false,
        location: index.location,
        ctype: base.ctype,
        expr: ExprKind::Cast(Box::new(index)),
    };
    lemma_count_rval(cast_node, name);
    let offset = spec_rval(cast_node);
    let size: u64 = match pointee.spec_sizeof() {
        Some(s) => s,
        None => 1u64,
    };
    let size_literal = crate::analyze::spec_literal(
        crate::hir::Literal::UnsignedInt(size),
        offset.location,
    );
    let size_cast = Expr {
        lval: false,
        location: offset.location,
        ctype: offset.ctype,
        expr: ExprKind::Cast(Box::new(size_literal)),
    };
    let scaled = Expr {
        lval: false,
        location: offset.location,
        ctype: offset.ctype,
        expr: ExprKind::Binary(BinaryOp::Mul, Box::new(size_cast), Box::new(offset)),
    };
    let result = Expr {
        lval: false,
        location,
        ctype: base.ctype,
        expr: ExprKind::Binary(BinaryOp::Add, Box::new(base), Box::new(scaled)),
    };
    assert(count_id(cast_node, name) == count_id(index, name));
    assert(count_id(size_literal, name) == 0);
    assert(count_id(size_cast, name) == 0);
    assert(count_id(scaled, name) == count_id(offset, name));
    assert(count_id(result, name) == count_id(base, name) + count_id(index, name));
    assert(spec_pointer_arithmetic(base, index, pointee, location).0 == result);
}

/// An additive operator node holds each operand exactly once, whichever
/// route it takes.
pub proof fn lemma_count_add(l: Expr, r: Expr, op: BinaryOp, name: u64)
    ensures
        count_id(spec_add(l, r, op).0, name) == count_id(l, name) + count_id(r, name),
{
    let is_add = (op == BinaryOp::Add);
    let location = l.location.spec_merge(r.location);
    match crate::analyze::spec_index_pointee(l, r) {
        Some(to) => {
            lemma_count_rval(l, name);
            lemma_count_rval(r, name);
            lemma_count_pointer_arithmetic(spec_rval(l), spec_rval(r), to, location, name);
        },
        None => {
            match (if is_add {
                crate::analyze::spec_index_pointee(r, l)
            } else {
                None::<Type>
            }) {
                Some(to) => {
                    lemma_count_rval(l, name);
                    lemma_count_rval(r, name);
                    lemma_count_pointer_arithmetic(
                        spec_rval(r),
                        spec_rval(l),
                        to,
                        location,
                        name,
                    );
                },
                None => {
                    if l.ctype.spec_is_arithmetic() && r.ctype.spec_is_arithmetic() {
                        lemma_count_promote_pair(l, r, name);
                    }
                },
            }
        },
    }
}

/// Whatever operator a compound token selects, its node holds each operand
/// exactly once.
pub proof fn lemma_count_desugar(l: Expr, r: Expr, token: AssignmentToken, name: u64)
    requires
        token != AssignmentToken::Equal,
    ensures
        count_id(spec_desugar(l, r, token).0, name) == count_id(l, name) + count_id(r, name),
{
    match token {
        AssignmentToken::Equal => {},
        AssignmentToken::OrEqual => lemma_count_integer_op(l, r, BinaryOp::BitwiseOr, name),
        AssignmentToken::AndEqual => lemma_count_integer_op(l, r, BinaryOp::BitwiseAnd, name),
        AssignmentToken::XorEqual => lemma_count_integer_op(l, r, BinaryOp::Xor, name),
        AssignmentToken::ShlEqual => lemma_count_integer_op(l, r, BinaryOp::Shl, name),
        AssignmentToken::ShrEqual => lemma_count_integer_op(l, r, BinaryOp::Shr, name),
        AssignmentToken::MulEqual => lemma_count_mul(l, r, BinaryOp::Mul, name),
        AssignmentToken::DivEqual => lemma_count_mul(l, r, BinaryOp::Div, name),
        AssignmentToken::ModEqual => lemma_count_mul(l, r, BinaryOp::Mod, name),
        AssignmentToken::AddEqual => lemma_count_add(l, r, BinaryOp::Add, name),
        AssignmentToken::SubEqual => lemma_count_add(l, r, BinaryOp::Sub, name),
    }
}

/// Compound assignment evaluates its left operand exactly once: in the
/// lowered tree every identifier occurs exactly as often as in the two
/// operands together, except the hidden temporary, which is referenced
/// exactly twice — once as the target that captures the left operand and
/// once inside the rewritten operation.
pub proof fn lemma_compound_assignment_single_evaluation(
    lval: Expr,
    rval: Expr,
    token: AssignmentToken,
    location: Location,
    name: u64,
)
    requires
        token != AssignmentToken::Equal,
    ensures
        count_id(spec_assignment(lval, rval, token, location).0, name) == count_id(lval, name)
            + count_id(rval, name) + (if name == COMPOUND_TMP_NAME {
            2nat
        } else {
            0nat
        }),
{
    let meta = spec_compound_tmp(lval.ctype);
    let tmp_ref = Expr { ctype: lval.ctype, lval: true, location, expr: ExprKind::Id(meta) };
    lemma_count_desugar(tmp_ref, rval, token, name);
    let tmp_id = Expr {
        ctype: lval.ctype,
        lval: false,
        location: lval.location,
        expr: ExprKind::Id(meta),
    };
    let tmp_assign = Expr {
        ctype: lval.ctype,
        lval: true,
        location,
        expr: ExprKind::Binary(BinaryOp::Assign, Box::new(tmp_id), Box::new(lval)),
    };
    let step = spec_desugar(tmp_ref, rval, token);
    let result = Expr {
        ctype: lval.ctype,
        lval: false,
        location,
        expr: ExprKind::Binary(BinaryOp::Assign, Box::new(tmp_assign), Box::new(step.0)),
    };
    let tmp_hits: nat = if name == COMPOUND_TMP_NAME {
        1nat
    } else {
        0nat
    };
    assert(count_id(tmp_id, name) == tmp_hits);
    assert(count_id(tmp_ref, name) == tmp_hits);
    assert(count_id(tmp_assign, name) == tmp_hits + count_id(lval, name));
    assert(count_id(step.0, name) == tmp_hits + count_id(rval, name));
    assert(count_id(result, name) == count_id(tmp_assign, name) + count_id(step.0, name));
    assert(spec_assignment(lval, rval, token, location).0 == result);
}

/// An undeclared identifier produces exactly one `UndeclaredVar` diagnostic
/// and a well-typed placeholder: the signed `Int` zero literal.
pub proof fn lemma_undeclared_identifier(e: ast::Expr, name: u64, sc: Seq<ScopeEntry>)
    requires
        e.data == ast::ExprKind::Id(name),
        spec_lookup(sc, name) == None::<Metadata>,
    ensures
        spec_lower(e, sc).0 == Expr::spec_zero(e.location),
        spec_lower(e, sc).1 == seq![
            (Diagnostic { kind: SemanticError::UndeclaredVar(name), location: e.location }),
        ],
{
}

/// Assigning to a `const`-qualified variable reports `NotAssignable` and
/// still produces the structurally valid assignment node: a non-lvalue
/// `Assign` node of the left side's type holding both operands.
pub proof fn lemma_const_variable_assignment(
    lval: Expr,
    rval: Expr,
    location: Location,
    meta: Metadata,
)
    requires
        lval.expr == ExprKind::Id(meta),
        meta.qualifiers.c_const,
        lval.lval,
        lval.ctype.spec_is_complete(),
    ensures
        ({
            let out = spec_assignment(lval, rval, AssignmentToken::Equal, location);
            &&& out.1.len() >= 1
            &&& out.1[0] == (Diagnostic {
                kind: SemanticError::NotAssignable(NotAssignableReason::ConstVariable),
                location,
            })
            &&& out.0.ctype == lval.ctype
            &&& !out.0.lval
            &&& out.0.expr == ExprKind::Binary(
                BinaryOp::Assign,
                Box::new(lval),
                Box::new(spec_implicit_cast(rval, lval.ctype)),
            )
        }),
{
}

} // verus!
