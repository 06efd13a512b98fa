//! The typed intermediate representation: expression nodes carrying a
//! resolved type, an lvalue flag and a source span, with every implicit
//! conversion materialized as an explicit node.

use vstd::prelude::*;
use crate::types::Type;
use crate::types::Qualifiers;

verus! {

/// A span of source positions, carried through analysis unchanged.
#[derive(Clone, Copy, PartialEq, Eq, Debug, Structural)]
pub struct Location {
    pub start: u64,
    pub end: u64,
}

impl Location {
    /// The span covering both operands of a binary form.
    pub open spec fn spec_merge(self, other: Location) -> Location {
        Location { start: self.start, end: other.end }
    }

    #[verifier::when_used_as_spec(spec_merge)]
    pub fn merge(self, other: Location) -> (r: Location)
        ensures
            r == self.spec_merge(other),
    {
        Location { start: self.start, end: other.end }
    }
}

/// A constant as the lexer collaborator hands it over. The payload of a
/// floating constant is its bit pattern, which this pass carries but never
/// reads; a string constant is an interned handle and its content length.
#[derive(Clone, Copy, PartialEq, Eq, Debug, Structural)]
pub enum Literal {
    Char(u8),
    Int(i64),
    UnsignedInt(u64),
    Float(u64),
    Str(u64, u64),
}

#[derive(Clone, Copy, PartialEq, Eq, Debug, Structural)]
pub enum ComparisonToken {
    Less,
    LessEqual,
    Greater,
    GreaterEqual,
    EqualEqual,
    NotEqual,
}

#[derive(Clone, Copy, PartialEq, Eq, Debug, Structural)]
pub enum AssignmentToken {
    Equal,
    AddEqual,
    SubEqual,
    MulEqual,
    DivEqual,
    ModEqual,
    ShlEqual,
    ShrEqual,
    AndEqual,
    OrEqual,
    XorEqual,
}

#[derive(Clone, Copy, PartialEq, Eq, Debug, Structural)]
pub enum BinaryOp {
    Add,
    Sub,
    Mul,
    Div,
    Mod,
    Shl,
    Shr,
    BitwiseAnd,
    BitwiseOr,
    Xor,
    Compare(ComparisonToken),
    Assign,
}

#[derive(Clone, Copy, PartialEq, Eq, Debug, Structural)]
pub enum StorageClass {
    Auto,
    Register,
    Static,
    Typedef,
}

/// What the scope collaborator resolves a name to.
#[derive(PartialEq, Eq, Debug)]
pub struct Metadata {
    pub id: u64,
    pub ctype: Type,
    pub qualifiers: Qualifiers,
    pub storage_class: StorageClass,
}

impl Clone for Metadata {
    fn clone(&self) -> (r: Self)
        ensures
            r == *self,
    {
        Metadata {
            id: self.id,
            ctype: self.ctype.clone(),
            qualifiers: self.qualifiers,
            storage_class: self.storage_class,
        }
    }
}

/// The shape of a typed node. Sub-expressions are owned exclusively: the
/// representation is a tree, with no sharing and no cycles.
#[derive(PartialEq, Eq, Debug)]
pub enum ExprKind {
    Literal(Literal),
    Id(Metadata),
    Binary(BinaryOp, Box<Expr>, Box<Expr>),
    Cast(Box<Expr>),
    Deref(Box<Expr>),
}

/// A typed expression node. `lval` means the node denotes an addressable
/// storage location; every rvalue-producing operation resets it.
#[derive(PartialEq, Eq, Debug)]
pub struct Expr {
    pub expr: ExprKind,
    pub ctype: Type,
    pub lval: bool,
    pub location: Location,
}

impl Clone for ExprKind {
    fn clone(&self) -> (r: Self)
        ensures
            r == *self,
        decreases self,
    {
        match self {
            ExprKind::Literal(l) => ExprKind::Literal(*l),
            ExprKind::Id(meta) => ExprKind::Id(meta.clone()),
            ExprKind::Binary(op, l, r) => ExprKind::Binary(
                *op,
                Box::new((**l).clone()),
                Box::new((**r).clone()),
            ),
            ExprKind::Cast(inner) => ExprKind::Cast(Box::new((**inner).clone())),
            ExprKind::Deref(inner) => ExprKind::Deref(Box::new((**inner).clone())),
        }
    }
}

impl Clone for Expr {
    fn clone(&self) -> (r: Self)
        ensures
            r == *self,
        decreases self,
    {
        Expr {
            expr: self.expr.clone(),
            ctype: self.ctype.clone(),
            lval: self.lval,
            location: self.location,
        }
    }
}

impl Expr {
    /// The recovery placeholder: a signed `Int` zero.
    pub open spec fn spec_zero(location: Location) -> Expr {
        Expr {
            ctype: Type::Int(true),
            expr: ExprKind::Literal(Literal::Int(0)),
            lval: false,
            location,
        }
    }

    pub fn zero(location: Location) -> (r: Expr)
        ensures
            r == Expr::spec_zero(location),
    {
        Expr {
            ctype: Type::Int(true),
            expr: ExprKind::Literal(Literal::Int(0)),
            lval: false,
            location,
        }
    }

    /// A null pointer constant: an integer or character literal of value zero.
    pub open spec fn spec_is_null(&self) -> bool {
        match self.expr {
            ExprKind::Literal(token) => match token {
                Literal::Int(v) => v == 0,
                Literal::UnsignedInt(v) => v == 0,
                Literal::Char(v) => v == 0,
                _ => false,
            },
            _ => false,
        }
    }

    #[verifier::when_used_as_spec(spec_is_null)]
    pub fn is_null(&self) -> (r: bool)
        ensures
            r == self.spec_is_null(),
    {
        match &self.expr {
            ExprKind::Literal(token) => match token {
                Literal::Int(v) => *v == 0,
                Literal::UnsignedInt(v) => *v == 0,
                Literal::Char(v) => *v == 0,
                _ => false,
            },
            _ => false,
        }
    }

    /// An lvalue reference to a resolved symbol, typed as declared.
    pub open spec fn spec_id(symbol: Metadata, location: Location) -> Expr {
        Expr { expr: ExprKind::Id(symbol), ctype: symbol.ctype, lval: true, location }
    }

    pub fn id(symbol: Metadata, location: Location) -> (r: Expr)
        ensures
            r == Expr::spec_id(symbol, location),
    {
        let ctype = symbol.ctype.clone();
        Expr { expr: ExprKind::Id(symbol), ctype, lval: true, location }
    }
}

} // verus!
