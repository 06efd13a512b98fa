//! Tests of the lowering pass: literals, operator typing, explicit casts,
//! identifier resolution, and assignment, driven through `parse_expr` on
//! hand-built untyped trees.

use cexpr::analyze::literal;
use cexpr::analyze::Analyzer;
use cexpr::analyze::COMPOUND_TMP_NAME;
use cexpr::ast;
use cexpr::diag::Diagnostic;
use cexpr::diag::NotAssignableReason;
use cexpr::diag::SemanticError;
use cexpr::hir::AssignmentToken;
use cexpr::hir::ComparisonToken;
use cexpr::hir::Expr;
use cexpr::hir::ExprKind;
use cexpr::hir::Literal;
use cexpr::hir::Location;
use cexpr::hir::Metadata;
use cexpr::hir::StorageClass;
use cexpr::types::ArrayType;
use cexpr::types::EnumMembers;
use cexpr::types::Qualifiers;
use cexpr::types::Type;

fn sp(start: u64, end: u64) -> Location {
    Location { start, end }
}

fn lit(l: Literal, start: u64, end: u64) -> ast::Expr {
    ast::Expr { data: ast::ExprKind::Literal(l), location: sp(start, end) }
}

fn num(v: i64, start: u64, end: u64) -> ast::Expr {
    lit(Literal::Int(v), start, end)
}

fn float(v: f64, start: u64, end: u64) -> ast::Expr {
    lit(Literal::Float(v.to_bits()), start, end)
}

fn ident(name: u64, start: u64, end: u64) -> ast::Expr {
    ast::Expr { data: ast::ExprKind::Id(name), location: sp(start, end) }
}

fn binary(
    make: fn(Box<ast::Expr>, Box<ast::Expr>) -> ast::ExprKind,
    l: ast::Expr,
    r: ast::Expr,
) -> ast::Expr {
    let location = Location { start: l.location.start, end: r.location.end };
    ast::Expr { data: make(Box::new(l), Box::new(r)), location }
}

fn cast(target: Type, inner: ast::Expr) -> ast::Expr {
    let location = inner.location;
    ast::Expr { data: ast::ExprKind::Cast(target, Box::new(inner)), location }
}

fn analyze(e: ast::Expr) -> (Expr, Vec<Diagnostic>) {
    let mut analyzer = Analyzer::new();
    let typed = analyzer.parse_expr(e);
    (typed, analyzer.error_handler.errors)
}

fn analyze_with(vars: Vec<(u64, Metadata)>, e: ast::Expr) -> (Expr, Vec<Diagnostic>) {
    let mut analyzer = Analyzer::new();
    for (name, meta) in vars {
        analyzer.scope.insert(name, meta);
    }
    let typed = analyzer.parse_expr(e);
    (typed, analyzer.error_handler.errors)
}

fn plain_var(name: u64, ctype: Type) -> Metadata {
    Metadata {
        id: name,
        ctype,
        qualifiers: Qualifiers { c_const: false, volatile: false },
        storage_class: StorageClass::Auto,
    }
}

fn assert_type(e: ast::Expr, ctype: Type) {
    let (typed, errors) = analyze(e);
    assert_eq!(errors.len(), 0);
    assert_eq!(typed.ctype, ctype);
}

fn int_pointer() -> Type {
    Type::Pointer(Box::new(Type::Int(true)), Qualifiers { c_const: false, volatile: false })
}

fn count_name(e: &Expr, name: u64) -> usize {
    match &e.expr {
        ExprKind::Literal(_) => 0,
        ExprKind::Id(meta) => {
            if meta.id == name {
                1
            } else {
                0
            }
        }
        ExprKind::Binary(_, l, r) => count_name(l, name) + count_name(r, name),
        ExprKind::Cast(inner) => count_name(inner, name),
        ExprKind::Deref(inner) => count_name(inner, name),
    }
}

#[test]
fn test_primaries() {
    let (typed, errors) = analyze(num(141, 0, 3));
    assert_eq!(errors.len(), 0);
    assert_eq!(typed, literal(Literal::Int(141), sp(0, 3)));
    // "hi there": an interned handle and the content length of 8
    let (typed, errors) = analyze(lit(Literal::Str(7, 8), 0, 10));
    assert_eq!(errors.len(), 0);
    assert_eq!(typed.ctype, Type::Array(Box::new(Type::Char(true)), ArrayType::Fixed(8)));
    assert!(!typed.lval);
}

#[test]
fn test_mul() {
    // 1*1.0
    assert_type(binary(ast::ExprKind::Mul, num(1, 0, 1), float(1.0, 2, 5)), Type::Double);
    // 1*2.0 / 1.3
    assert_type(
        binary(
            ast::ExprKind::Div,
            binary(ast::ExprKind::Mul, num(1, 0, 1), float(2.0, 2, 5)),
            float(1.3, 8, 11),
        ),
        Type::Double,
    );
    // 3%2
    assert_type(binary(ast::ExprKind::Mod, num(3, 0, 1), num(2, 2, 3)), Type::Long(true));
}

#[test]
fn test_type_errors() {
    // 1 % 2.0
    let (_, errors) = analyze(binary(ast::ExprKind::Mod, num(1, 0, 1), float(2.0, 4, 7)));
    assert_eq!(errors.len(), 1);
    assert_eq!(
        errors[0].kind,
        SemanticError::NonIntegralModulo(Type::Long(true), Type::Double)
    );
}

#[test]
fn test_explicit_casts() {
    assert_type(cast(Type::Int(true), float(4.2, 5, 8)), Type::Int(true));
    assert_type(cast(Type::Int(false), float(4.2, 14, 17)), Type::Int(false));
    assert_type(cast(Type::Float, float(4.2, 7, 10)), Type::Float);
    assert_type(cast(Type::Double, float(4.2, 8, 11)), Type::Double);
    // (int*)4.2 is a float-pointer cast
    let (typed, errors) = analyze(cast(int_pointer(), float(4.2, 6, 9)));
    assert_eq!(errors.len(), 1);
    assert_eq!(errors[0].kind, SemanticError::FloatPointerCast(int_pointer()));
    assert_eq!(typed.ctype, int_pointer());
    // (int*)(int)4.2 is fine
    assert_type(cast(int_pointer(), cast(Type::Int(true), float(4.2, 11, 14))), int_pointer());
}

#[test]
fn cast_to_void_always_succeeds() {
    let (typed, errors) = analyze(cast(Type::Void, num(3, 5, 6)));
    assert_eq!(errors.len(), 0);
    assert_eq!(typed.ctype, Type::Void);
    assert!(matches!(typed.expr, ExprKind::Cast(_)));
}

#[test]
fn cast_to_non_scalar_reports() {
    let arr = Type::Array(Box::new(Type::Int(true)), ArrayType::Fixed(4));
    let (typed, errors) = analyze(cast(arr.clone(), num(1, 6, 7)));
    assert_eq!(errors.len(), 1);
    assert_eq!(errors[0].kind, SemanticError::NonScalarCast(arr.clone()));
    assert_eq!(typed.ctype, arr);
}

#[test]
fn cast_from_void_reports() {
    // (int)(void)0
    let (typed, errors) = analyze(cast(Type::Int(true), cast(Type::Void, num(0, 10, 11))));
    assert_eq!(errors.len(), 1);
    assert_eq!(errors[0].kind, SemanticError::VoidCast);
    assert_eq!(typed.ctype, Type::Int(true));
}

#[test]
fn cast_of_aggregate_reports() {
    let stype = Type::Struct(cexpr::types::AggregateInfo {
        tag: 3,
        size: 8,
        has_const_member: false,
    });
    let (typed, errors) = analyze_with(
        vec![(1, plain_var(1, stype))],
        cast(Type::Int(true), ident(1, 5, 6)),
    );
    assert_eq!(errors.len(), 1);
    assert_eq!(errors[0].kind, SemanticError::StructCast);
    assert_eq!(typed.ctype, Type::Int(true));
}

#[test]
fn shift_types_promote() {
    // 1 << 2 on long literals stays signed long
    let e = ast::Expr {
        data: ast::ExprKind::Shift(Box::new(num(1, 0, 1)), Box::new(num(2, 5, 6)), true),
        location: sp(0, 6),
    };
    let (typed, errors) = analyze(e);
    assert_eq!(errors.len(), 0);
    assert_eq!(typed.ctype, Type::Long(true));
    assert!(!typed.lval);
}

#[test]
fn bitwise_on_floating_reports() {
    // 1 & 2.0
    let (typed, errors) = analyze(binary(ast::ExprKind::BitwiseAnd, num(1, 0, 1), float(2.0, 4, 7)));
    assert_eq!(errors.len(), 1);
    assert_eq!(errors[0].kind, SemanticError::NonIntegralExpr(Type::Double));
    // analysis still promotes and produces a node
    assert_eq!(typed.ctype, Type::Double);
}

#[test]
fn multiplication_of_pointer_reports() {
    // p * 1
    let (_, errors) = analyze_with(
        vec![(1, plain_var(1, int_pointer()))],
        binary(ast::ExprKind::Mul, ident(1, 0, 1), num(1, 4, 5)),
    );
    assert_eq!(errors.len(), 1);
    assert_eq!(
        errors[0].kind,
        SemanticError::NonArithmeticOperands(
            cexpr::hir::BinaryOp::Mul,
            int_pointer(),
            Type::Long(true)
        )
    );
}

#[test]
fn comparison_yields_bool() {
    // 1 < 2.0
    let e = ast::Expr {
        data: ast::ExprKind::Compare(
            Box::new(num(1, 0, 1)),
            Box::new(float(2.0, 4, 7)),
            ComparisonToken::Less,
        ),
        location: sp(0, 7),
    };
    let (typed, errors) = analyze(e);
    assert_eq!(errors.len(), 0);
    assert_eq!(typed.ctype, Type::Bool);
    assert!(!typed.lval);
}

#[test]
fn equality_with_null_pointer_allowed() {
    // p == 0
    let e = ast::Expr {
        data: ast::ExprKind::Compare(
            Box::new(ident(1, 0, 1)),
            Box::new(num(0, 5, 6)),
            ComparisonToken::EqualEqual,
        ),
        location: sp(0, 6),
    };
    let (typed, errors) = analyze_with(vec![(1, plain_var(1, int_pointer()))], e);
    assert_eq!(errors.len(), 0);
    assert_eq!(typed.ctype, Type::Bool);
}

#[test]
fn ordering_of_distinct_pointers_reports() {
    // p < q with int* and char*
    let char_ptr = Type::Pointer(
        Box::new(Type::Char(true)),
        Qualifiers { c_const: false, volatile: false },
    );
    let e = ast::Expr {
        data: ast::ExprKind::Compare(
            Box::new(ident(1, 0, 1)),
            Box::new(ident(2, 4, 5)),
            ComparisonToken::Less,
        ),
        location: sp(0, 5),
    };
    let (typed, errors) = analyze_with(
        vec![(1, plain_var(1, int_pointer())), (2, plain_var(2, char_ptr.clone()))],
        e,
    );
    assert_eq!(errors.len(), 1);
    assert_eq!(
        errors[0].kind,
        SemanticError::InvalidRelationalType(ComparisonToken::Less, int_pointer(), char_ptr)
    );
    assert_eq!(typed.ctype, Type::Bool);
}

#[test]
fn pointer_plus_integer_scales_by_element_size() {
    // p + 2 for an int pointer: base + (cast(4) * index)
    let e = binary(ast::ExprKind::Add, ident(1, 0, 1), num(2, 4, 5));
    let (typed, errors) = analyze_with(vec![(1, plain_var(1, int_pointer()))], e);
    assert_eq!(errors.len(), 0);
    assert_eq!(typed.ctype, int_pointer());
    match &typed.expr {
        ExprKind::Binary(cexpr::hir::BinaryOp::Add, base, scaled) => {
            assert_eq!(base.ctype, int_pointer());
            match &scaled.expr {
                ExprKind::Binary(cexpr::hir::BinaryOp::Mul, size_cast, _offset) => {
                    assert_eq!(size_cast.ctype, int_pointer());
                    match &size_cast.expr {
                        ExprKind::Cast(size_literal) => {
                            assert_eq!(
                                size_literal.expr,
                                ExprKind::Literal(Literal::UnsignedInt(4))
                            );
                        }
                        other => panic!("expected a size cast, got {:?}", other),
                    }
                }
                other => panic!("expected the scaling product, got {:?}", other),
            }
        }
        other => panic!("expected pointer addition, got {:?}", other),
    }
}

#[test]
fn integer_plus_array_commutes_into_pointer_arithmetic() {
    // 1 + a where a is int[3]
    let arr = Type::Array(Box::new(Type::Int(true)), ArrayType::Fixed(3));
    let e = binary(ast::ExprKind::Add, num(1, 0, 1), ident(1, 4, 5));
    let (typed, errors) = analyze_with(vec![(1, plain_var(1, arr))], e);
    assert_eq!(errors.len(), 0);
    assert_eq!(typed.ctype, int_pointer());
}

#[test]
fn integer_minus_pointer_reports() {
    // 1 - p is invalid
    let e = binary(ast::ExprKind::Sub, num(1, 0, 1), ident(1, 4, 5));
    let (_, errors) = analyze_with(vec![(1, plain_var(1, int_pointer()))], e);
    assert_eq!(errors.len(), 1);
    assert_eq!(
        errors[0].kind,
        SemanticError::InvalidAdd(cexpr::hir::BinaryOp::Sub, Type::Long(true), int_pointer())
    );
}

#[test]
fn pointer_difference_keeps_pointer_type() {
    // p - q for two int pointers
    let e = binary(ast::ExprKind::Sub, ident(1, 0, 1), ident(2, 4, 5));
    let (typed, errors) = analyze_with(
        vec![(1, plain_var(1, int_pointer())), (2, plain_var(2, int_pointer()))],
        e,
    );
    assert_eq!(errors.len(), 0);
    assert_eq!(typed.ctype, int_pointer());
    assert!(typed.lval);
}

#[test]
fn pointer_add_of_unsizable_pointee_reports() {
    // the pointee is complete (a fixed array) but its byte size overflows
    let huge = Type::Array(Box::new(Type::Long(true)), ArrayType::Fixed(u64::MAX / 2));
    let p = Type::Pointer(Box::new(huge), Qualifiers { c_const: false, volatile: false });
    let e = binary(ast::ExprKind::Add, ident(1, 0, 1), num(1, 4, 5));
    let (typed, errors) = analyze_with(vec![(1, plain_var(1, p.clone()))], e);
    assert_eq!(errors.len(), 1);
    assert_eq!(errors[0].kind, SemanticError::PointerAddUnknownSize(p.clone()));
    // size one is substituted and analysis continues
    assert_eq!(typed.ctype, p);
}

#[test]
fn undeclared_identifier_recovers_with_zero() {
    let (typed, errors) = analyze(ident(9, 0, 1));
    assert_eq!(errors.len(), 1);
    assert_eq!(errors[0].kind, SemanticError::UndeclaredVar(9));
    assert_eq!(errors[0].location, sp(0, 1));
    assert_eq!(typed.ctype, Type::Int(true));
    assert_eq!(typed.expr, ExprKind::Literal(Literal::Int(0)));
    assert!(!typed.lval);
}

#[test]
fn typedef_in_expression_reports() {
    let meta = Metadata {
        id: 1,
        ctype: Type::Int(true),
        qualifiers: Qualifiers { c_const: false, volatile: false },
        storage_class: StorageClass::Typedef,
    };
    let (typed, errors) = analyze_with(vec![(1, meta)], ident(1, 0, 1));
    assert_eq!(errors.len(), 1);
    assert_eq!(errors[0].kind, SemanticError::TypedefInExpressionContext);
    assert_eq!(typed.expr, ExprKind::Literal(Literal::Int(0)));
}

#[test]
fn enumerator_resolves_to_its_value() {
    let members = EnumMembers::Cons(
        5,
        10,
        Box::new(EnumMembers::Cons(6, 11, Box::new(EnumMembers::Nil))),
    );
    let etype = Type::Enum(2, members);
    let (typed, errors) = analyze_with(vec![(6, plain_var(6, etype.clone()))], ident(6, 0, 1));
    assert_eq!(errors.len(), 0);
    assert_eq!(typed.expr, ExprKind::Literal(Literal::Int(11)));
    assert_eq!(typed.ctype, etype);
    assert!(!typed.lval);
}

#[test]
fn enum_typed_variable_stays_lvalue() {
    let members = EnumMembers::Cons(5, 10, Box::new(EnumMembers::Nil));
    let etype = Type::Enum(2, members);
    let (typed, errors) = analyze_with(vec![(7, plain_var(7, etype.clone()))], ident(7, 0, 1));
    assert_eq!(errors.len(), 0);
    assert_eq!(typed.ctype, etype);
    assert!(typed.lval);
    assert!(matches!(typed.expr, ExprKind::Id(_)));
}

#[test]
fn inner_declaration_shadows_outer() {
    let mut analyzer = Analyzer::new();
    analyzer.scope.insert(1, plain_var(1, Type::Int(true)));
    analyzer.scope.enter();
    analyzer.scope.insert(1, plain_var(1, Type::Double));
    let typed = analyzer.parse_expr(ident(1, 0, 1));
    assert_eq!(typed.ctype, Type::Double);
    analyzer.scope.exit();
    let typed = analyzer.parse_expr(ident(1, 0, 1));
    assert_eq!(typed.ctype, Type::Int(true));
}

#[test]
fn simple_assignment_casts_right_side() {
    // x = 2.0 for int x
    let e = ast::Expr {
        data: ast::ExprKind::Assign(
            Box::new(ident(1, 0, 1)),
            Box::new(float(2.0, 4, 7)),
            AssignmentToken::Equal,
        ),
        location: sp(0, 7),
    };
    let (typed, errors) = analyze_with(vec![(1, plain_var(1, Type::Int(true)))], e);
    assert_eq!(errors.len(), 0);
    assert_eq!(typed.ctype, Type::Int(true));
    assert!(!typed.lval);
    match &typed.expr {
        ExprKind::Binary(cexpr::hir::BinaryOp::Assign, target, value) => {
            assert!(target.lval);
            assert_eq!(value.ctype, Type::Int(true));
            assert!(matches!(value.expr, ExprKind::Cast(_)));
        }
        other => panic!("expected an assignment node, got {:?}", other),
    }
}

#[test]
fn assignment_to_const_variable_reports_but_produces_node() {
    let meta = Metadata {
        id: 1,
        ctype: Type::Int(true),
        qualifiers: Qualifiers { c_const: true, volatile: false },
        storage_class: StorageClass::Auto,
    };
    let e = ast::Expr {
        data: ast::ExprKind::Assign(
            Box::new(ident(1, 0, 1)),
            Box::new(num(3, 4, 5)),
            AssignmentToken::Equal,
        ),
        location: sp(0, 5),
    };
    let (typed, errors) = analyze_with(vec![(1, meta)], e);
    assert_eq!(errors.len(), 1);
    assert_eq!(
        errors[0].kind,
        SemanticError::NotAssignable(NotAssignableReason::ConstVariable)
    );
    assert_eq!(typed.ctype, Type::Int(true));
    assert!(matches!(
        typed.expr,
        ExprKind::Binary(cexpr::hir::BinaryOp::Assign, _, _)
    ));
}

#[test]
fn assignment_to_rvalue_reports() {
    // 1 = 2
    let e = ast::Expr {
        data: ast::ExprKind::Assign(
            Box::new(num(1, 0, 1)),
            Box::new(num(2, 4, 5)),
            AssignmentToken::Equal,
        ),
        location: sp(0, 5),
    };
    let (_, errors) = analyze(e);
    assert_eq!(errors.len(), 1);
    assert_eq!(errors[0].kind, SemanticError::NotAssignable(NotAssignableReason::Rvalue));
}

#[test]
fn assignment_to_incomplete_lvalue_reports() {
    // an array of unknown bound is an incomplete type
    let arr = Type::Array(Box::new(Type::Int(true)), ArrayType::Unbounded);
    let e = ast::Expr {
        data: ast::ExprKind::Assign(
            Box::new(ident(1, 0, 1)),
            Box::new(num(2, 4, 5)),
            AssignmentToken::Equal,
        ),
        location: sp(0, 5),
    };
    let (_, errors) = analyze_with(vec![(1, plain_var(1, arr))], e);
    assert!(errors.len() >= 1);
    assert_eq!(
        errors[0].kind,
        SemanticError::NotAssignable(NotAssignableReason::Incomplete)
    );
}

#[test]
fn assignment_to_array_reports() {
    let arr = Type::Array(Box::new(Type::Int(true)), ArrayType::Fixed(2));
    let e = ast::Expr {
        data: ast::ExprKind::Assign(
            Box::new(ident(1, 0, 1)),
            Box::new(num(2, 4, 5)),
            AssignmentToken::Equal,
        ),
        location: sp(0, 5),
    };
    let (_, errors) = analyze_with(vec![(1, plain_var(1, arr.clone()))], e);
    assert!(errors.len() >= 1);
    assert_eq!(errors[0].kind, SemanticError::NotAssignable(NotAssignableReason::IsArray));
}

#[test]
fn assignment_to_const_member_aggregate_reports() {
    let stype = Type::Struct(cexpr::types::AggregateInfo {
        tag: 4,
        size: 16,
        has_const_member: true,
    });
    let e = ast::Expr {
        data: ast::ExprKind::Assign(
            Box::new(ident(1, 0, 1)),
            Box::new(ident(2, 4, 5)),
            AssignmentToken::Equal,
        ),
        location: sp(0, 5),
    };
    let (_, errors) = analyze_with(
        vec![(1, plain_var(1, stype.clone())), (2, plain_var(2, stype))],
        e,
    );
    assert_eq!(errors.len(), 1);
    assert_eq!(
        errors[0].kind,
        SemanticError::NotAssignable(NotAssignableReason::ConstMember)
    );
}

#[test]
fn compound_assignment_evaluates_target_once() {
    // x += 1: the target occurs once, the hidden temporary twice
    let e = ast::Expr {
        data: ast::ExprKind::Assign(
            Box::new(ident(1, 0, 1)),
            Box::new(num(1, 5, 6)),
            AssignmentToken::AddEqual,
        ),
        location: sp(0, 6),
    };
    let (typed, errors) = analyze_with(vec![(1, plain_var(1, Type::Int(true)))], e);
    assert_eq!(errors.len(), 0);
    assert_eq!(typed.ctype, Type::Int(true));
    assert!(!typed.lval);
    assert_eq!(count_name(&typed, 1), 1);
    assert_eq!(count_name(&typed, COMPOUND_TMP_NAME), 2);
}

#[test]
fn compound_assignment_leaves_no_temporary_in_scope() {
    let e = ast::Expr {
        data: ast::ExprKind::Assign(
            Box::new(ident(1, 0, 1)),
            Box::new(num(1, 5, 6)),
            AssignmentToken::MulEqual,
        ),
        location: sp(0, 6),
    };
    let mut analyzer = Analyzer::new();
    analyzer.scope.insert(1, plain_var(1, Type::Long(true)));
    let _ = analyzer.parse_expr(e);
    assert_eq!(analyzer.scope.entries.len(), 1);
    assert_eq!(analyzer.scope.frame_starts.len(), 0);
    assert!(analyzer.scope.get(COMPOUND_TMP_NAME).is_none());
}

#[test]
fn compound_shift_desugars_through_integer_rule() {
    // x <<= 2.5 reports the non-integral right operand
    let e = ast::Expr {
        data: ast::ExprKind::Assign(
            Box::new(ident(1, 0, 1)),
            Box::new(float(2.5, 6, 9)),
            AssignmentToken::ShlEqual,
        ),
        location: sp(0, 9),
    };
    let (_, errors) = analyze_with(vec![(1, plain_var(1, Type::Int(true)))], e);
    assert_eq!(errors.len(), 1);
    assert_eq!(errors[0].kind, SemanticError::NonIntegralExpr(Type::Double));
}

#[test]
fn invalid_implicit_cast_in_assignment_reports() {
    // p = 2.0 for int* p
    let e = ast::Expr {
        data: ast::ExprKind::Assign(
            Box::new(ident(1, 0, 1)),
            Box::new(float(2.0, 4, 7)),
            AssignmentToken::Equal,
        ),
        location: sp(0, 7),
    };
    let (typed, errors) = analyze_with(vec![(1, plain_var(1, int_pointer()))], e);
    assert_eq!(errors.len(), 1);
    assert_eq!(errors[0].kind, SemanticError::InvalidCast(Type::Double, int_pointer()));
    assert_eq!(typed.ctype, int_pointer());
}

#[test]
fn one_expression_can_report_many_diagnostics() {
    // q % 2.0 with q undeclared: an undeclared-variable report and the
    // modulo type mismatch, in reporting order
    let e = binary(ast::ExprKind::Mod, ident(9, 0, 1), float(2.0, 4, 7));
    let (_, errors) = analyze(e);
    assert_eq!(errors.len(), 2);
    assert_eq!(errors[0].kind, SemanticError::UndeclaredVar(9));
    assert_eq!(
        errors[1].kind,
        SemanticError::NonIntegralModulo(Type::Int(true), Type::Double)
    );
}

#[test]
fn string_literal_decays_in_operand_position() {
    // s + 1 turns the array into a char pointer
    let e = binary(ast::ExprKind::Add, lit(Literal::Str(3, 5), 0, 7), num(1, 10, 11));
    let (typed, errors) = analyze(e);
    assert_eq!(errors.len(), 0);
    assert_eq!(
        typed.ctype,
        Type::Pointer(Box::new(Type::Char(true)), Qualifiers { c_const: false, volatile: false })
    );
}
