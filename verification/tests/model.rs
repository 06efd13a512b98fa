//! Tests of the type model and the conversion engine: ranks, promotions,
//! sizes, decay, implicit casting and pointer compatibility.

use cexpr::analyze::literal;
use cexpr::convert::pointer_promote;
use cexpr::diag::ErrorHandler;
use cexpr::diag::SemanticError;
use cexpr::hir::Expr;
use cexpr::hir::ExprKind;
use cexpr::hir::Literal;
use cexpr::hir::Location;
use cexpr::hir::Metadata;
use cexpr::hir::StorageClass;
use cexpr::types::type_eq;
use cexpr::types::ArrayType;
use cexpr::types::Qualifiers;
use cexpr::types::Type;

fn sp() -> Location {
    Location { start: 0, end: 1 }
}

fn no_quals() -> Qualifiers {
    Qualifiers { c_const: false, volatile: false }
}

fn var(name: u64, ctype: Type) -> Expr {
    Expr::id(
        Metadata {
            id: name,
            ctype,
            qualifiers: no_quals(),
            storage_class: StorageClass::Auto,
        },
        sp(),
    )
}

#[test]
fn ranks_are_ordered() {
    assert!(Type::Long(true).rank() > Type::Int(true).rank());
    assert!(Type::Int(false).rank() > Type::Short(false).rank());
    assert!(Type::Short(true).rank() > Type::Char(true).rank());
    assert!(Type::Char(true).rank() > Type::Bool.rank());
    assert!(Type::Long(false).rank() > Type::Bool.rank());
    assert_eq!(Type::Long(true).rank(), Type::Long(false).rank());
}

#[test]
fn integer_promotion_widens_small_types() {
    // everything of rank at most Int's becomes Int or unsigned Int
    assert_eq!(Type::Bool.integer_promote(), Type::Int(true));
    assert_eq!(Type::Char(true).integer_promote(), Type::Int(true));
    assert_eq!(Type::Char(false).integer_promote(), Type::Int(true));
    assert_eq!(Type::Short(true).integer_promote(), Type::Int(true));
    assert_eq!(Type::Short(false).integer_promote(), Type::Int(true));
    assert_eq!(Type::Int(true).integer_promote(), Type::Int(true));
    assert_eq!(Type::Int(false).integer_promote(), Type::Int(false));
    assert_eq!(Type::Long(true).integer_promote(), Type::Long(true));
    assert_eq!(Type::Long(false).integer_promote(), Type::Long(false));
}

#[test]
fn binary_promotion_follows_the_usual_rules() {
    assert_eq!(Type::binary_promote(&Type::Int(true), &Type::Double), Type::Double);
    assert_eq!(Type::binary_promote(&Type::Double, &Type::Float), Type::Double);
    assert_eq!(Type::binary_promote(&Type::Long(true), &Type::Float), Type::Float);
    assert_eq!(Type::binary_promote(&Type::Char(true), &Type::Short(false)), Type::Int(true));
    assert_eq!(Type::binary_promote(&Type::Int(true), &Type::Long(true)), Type::Long(true));
    // differing signs: the signed side wins only when it can represent the
    // unsigned side's values
    assert_eq!(Type::binary_promote(&Type::Long(true), &Type::Int(false)), Type::Long(true));
    assert_eq!(Type::binary_promote(&Type::Int(true), &Type::Int(false)), Type::Int(false));
    assert_eq!(Type::binary_promote(&Type::Long(true), &Type::Long(false)), Type::Long(false));
}

#[test]
fn binary_promotion_is_commutative_on_samples() {
    let samples = vec![
        Type::Bool,
        Type::Char(true),
        Type::Char(false),
        Type::Short(true),
        Type::Short(false),
        Type::Int(true),
        Type::Int(false),
        Type::Long(true),
        Type::Long(false),
        Type::Float,
        Type::Double,
    ];
    for a in &samples {
        for b in &samples {
            assert_eq!(Type::binary_promote(a, b), Type::binary_promote(b, a));
        }
    }
}

#[test]
fn can_represent_compares_value_ranges() {
    assert!(Type::Int(true).can_represent(&Type::Char(false)));
    assert!(Type::Int(true).can_represent(&Type::Short(true)));
    assert!(!Type::Int(true).can_represent(&Type::Int(false)));
    assert!(Type::Long(true).can_represent(&Type::Int(false)));
    assert!(!Type::Long(true).can_represent(&Type::Long(false)));
    assert!(Type::Long(false).can_represent(&Type::Bool));
}

#[test]
fn sizes_of_common_types() {
    assert_eq!(Type::Bool.sizeof(), Some(1));
    assert_eq!(Type::Char(false).sizeof(), Some(1));
    assert_eq!(Type::Short(true).sizeof(), Some(2));
    assert_eq!(Type::Int(true).sizeof(), Some(4));
    assert_eq!(Type::Long(false).sizeof(), Some(8));
    assert_eq!(Type::Float.sizeof(), Some(4));
    assert_eq!(Type::Double.sizeof(), Some(8));
    assert_eq!(Type::Pointer(Box::new(Type::Void), no_quals()).sizeof(), Some(8));
    let arr = Type::Array(Box::new(Type::Int(true)), ArrayType::Fixed(10));
    assert_eq!(arr.sizeof(), Some(40));
    assert_eq!(Type::Array(Box::new(Type::Int(true)), ArrayType::Unbounded).sizeof(), None);
    assert_eq!(Type::Void.sizeof(), None);
    // an array of so many elements that the byte size overflows has no size
    let huge = Type::Array(Box::new(Type::Long(true)), ArrayType::Fixed(u64::MAX / 4));
    assert_eq!(huge.sizeof(), None);
}

#[test]
fn completeness_of_types() {
    assert!(!Type::Void.is_complete());
    assert!(!Type::Array(Box::new(Type::Int(true)), ArrayType::Unbounded).is_complete());
    assert!(Type::Array(Box::new(Type::Int(true)), ArrayType::Fixed(2)).is_complete());
    assert!(Type::Int(false).is_complete());
}

#[test]
fn decay_is_idempotent_on_samples() {
    // an lvalue variable decays to a load; decaying again changes nothing
    let loaded = var(1, Type::Int(true)).rval();
    assert!(!loaded.lval);
    assert!(matches!(loaded.expr, ExprKind::Deref(_)));
    let again = loaded.clone();
    assert_eq!(again.rval(), var(1, Type::Int(true)).rval());
    // an array variable decays to a pointer without a load
    let arr = Type::Array(Box::new(Type::Char(true)), ArrayType::Fixed(3));
    let decayed = var(2, arr).rval();
    assert_eq!(decayed.ctype, Type::Pointer(Box::new(Type::Char(true)), no_quals()));
    assert!(matches!(decayed.expr, ExprKind::Id(_)));
    let redecayed = decayed.clone();
    assert_eq!(redecayed.rval(), var(
        2,
        Type::Array(Box::new(Type::Char(true)), ArrayType::Fixed(3)),
    ).rval());
    // a function designator decays to a const pointer to the function
    let f = Type::Function(cexpr::types::FunctionSignature { tag: 9 });
    let fptr = var(3, f.clone()).rval();
    assert_eq!(
        fptr.ctype,
        Type::Pointer(Box::new(f), Qualifiers { c_const: true, volatile: false })
    );
    assert!(!fptr.lval);
}

#[test]
fn literal_types_follow_the_lexical_class() {
    assert_eq!(literal(Literal::Char(65), sp()).ctype, Type::Char(true));
    assert_eq!(literal(Literal::Int(-3), sp()).ctype, Type::Long(true));
    assert_eq!(literal(Literal::UnsignedInt(3), sp()).ctype, Type::Long(false));
    assert_eq!(literal(Literal::Float((0.5f64).to_bits()), sp()).ctype, Type::Double);
    assert_eq!(
        literal(Literal::Str(1, 4), sp()).ctype,
        Type::Array(Box::new(Type::Char(true)), ArrayType::Fixed(4))
    );
}

#[test]
fn null_constants_are_zero_literals() {
    assert!(literal(Literal::Int(0), sp()).is_null());
    assert!(literal(Literal::UnsignedInt(0), sp()).is_null());
    assert!(literal(Literal::Char(0), sp()).is_null());
    assert!(!literal(Literal::Int(1), sp()).is_null());
    assert!(!literal(Literal::Float((0.0f64).to_bits()), sp()).is_null());
}

#[test]
fn implicit_cast_swallows_the_error_sentinel() {
    let mut handler = ErrorHandler::new();
    let broken = Expr {
        expr: ExprKind::Literal(Literal::Int(1)),
        ctype: Type::Error,
        lval: false,
        location: sp(),
    };
    let out = broken.implicit_cast(&Type::Pointer(Box::new(Type::Int(true)), no_quals()), &mut handler);
    assert_eq!(handler.errors.len(), 0);
    assert_eq!(out.ctype, Type::Error);
}

#[test]
fn implicit_cast_retypes_void_pointers_in_place() {
    let mut handler = ErrorHandler::new();
    let void_ptr = Type::Pointer(Box::new(Type::Void), no_quals());
    let int_ptr = Type::Pointer(Box::new(Type::Int(true)), no_quals());
    let e = var(1, void_ptr).rval();
    let out = e.implicit_cast(&int_ptr, &mut handler);
    assert_eq!(handler.errors.len(), 0);
    assert_eq!(out.ctype, int_ptr);
    // retyped in place: no cast node was inserted
    assert!(matches!(out.expr, ExprKind::Deref(_)));
}

#[test]
fn implicit_cast_reports_what_it_cannot_bridge() {
    let mut handler = ErrorHandler::new();
    let int_ptr = Type::Pointer(Box::new(Type::Int(true)), no_quals());
    let e = literal(Literal::Float((2.5f64).to_bits()), sp());
    let out = e.implicit_cast(&int_ptr, &mut handler);
    assert_eq!(handler.errors.len(), 1);
    assert_eq!(
        handler.errors[0].kind,
        SemanticError::InvalidCast(Type::Double, int_ptr)
    );
    assert_eq!(out.ctype, Type::Double);
}

#[test]
fn pointer_promote_relabels_compatible_sides() {
    let int_ptr = Type::Pointer(Box::new(Type::Int(true)), no_quals());
    let void_ptr = Type::Pointer(Box::new(Type::Void), no_quals());
    // a void pointer takes the other side's type
    let mut l = var(1, void_ptr).rval();
    let mut r = var(2, int_ptr.clone()).rval();
    assert!(pointer_promote(&mut l, &mut r));
    assert_eq!(l.ctype, int_ptr);
    assert_eq!(r.ctype, int_ptr);
    // a null constant takes the pointer's type
    let mut l = var(1, int_ptr.clone()).rval();
    let mut r = literal(Literal::Int(0), sp());
    assert!(pointer_promote(&mut l, &mut r));
    assert_eq!(r.ctype, int_ptr);
    // a char pointer is compatible enough and takes the other side's type
    let char_ptr = Type::Pointer(Box::new(Type::Char(true)), no_quals());
    let mut l = var(1, int_ptr.clone()).rval();
    let mut r = var(2, char_ptr).rval();
    assert!(pointer_promote(&mut l, &mut r));
    assert_eq!(r.ctype, int_ptr);
    // incompatible pointers stay put
    let dbl_ptr = Type::Pointer(Box::new(Type::Double), no_quals());
    let mut l = var(1, int_ptr.clone()).rval();
    let mut r = var(2, dbl_ptr.clone()).rval();
    assert!(!pointer_promote(&mut l, &mut r));
    assert_eq!(l.ctype, int_ptr);
    assert_eq!(r.ctype, dbl_ptr);
}

#[test]
fn type_equality_is_structural() {
    let a = Type::Pointer(Box::new(Type::Int(true)), no_quals());
    let b = Type::Pointer(Box::new(Type::Int(true)), no_quals());
    let c = Type::Pointer(Box::new(Type::Int(false)), no_quals());
    assert!(type_eq(&a, &b));
    assert!(!type_eq(&a, &c));
    assert!(!type_eq(&a, &Type::Int(true)));
    assert_eq!(a.clone(), b);
}
