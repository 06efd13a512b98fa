//! The C type model: representation of types, the integer rank and sign
//! rules, the integer and usual-arithmetic promotions, and the completeness
//! and scalar/arithmetic/pointer predicates.

use vstd::prelude::*;

verus! {

/// Type qualifiers the analyzer tracks on declarations and pointees.
#[derive(Clone, Copy, PartialEq, Eq, Debug, Structural)]
pub struct Qualifiers {
    pub c_const: bool,
    pub volatile: bool,
}

impl Qualifiers {
    /// No qualifiers at all, the default for freshly built nodes.
    pub open spec fn spec_none() -> Qualifiers {
        Qualifiers { c_const: false, volatile: false }
    }

    #[verifier::when_used_as_spec(spec_none)]
    pub fn none() -> (r: Qualifiers)
        ensures
            r == Qualifiers::spec_none(),
    {
        Qualifiers { c_const: false, volatile: false }
    }

    /// Only `const`, as carried by a decayed function designator.
    pub open spec fn spec_const_only() -> Qualifiers {
        Qualifiers { c_const: true, volatile: false }
    }

    #[verifier::when_used_as_spec(spec_const_only)]
    pub fn const_only() -> (r: Qualifiers)
        ensures
            r == Qualifiers::spec_const_only(),
    {
        Qualifiers { c_const: true, volatile: false }
    }
}

/// Whether an array type carries a known length.
#[derive(Clone, Copy, PartialEq, Eq, Debug, Structural)]
pub enum ArrayType {
    Fixed(u64),
    Unbounded,
}

/// The facts this pass consults about a struct or union definition. Member
/// lists live with the declaration collaborator; the analyzer keeps the
/// interned tag together with the two resolved facts its rules read: the
/// object size in bytes and whether any member is `const`-qualified.
#[derive(Clone, Copy, PartialEq, Eq, Debug, Structural)]
pub struct AggregateInfo {
    pub tag: u64,
    pub size: u64,
    pub has_const_member: bool,
}

/// An interned handle to a function signature; this pass never reads its
/// parts, it only wraps function designators into pointers.
#[derive(Clone, Copy, PartialEq, Eq, Debug, Structural)]
pub struct FunctionSignature {
    pub tag: u64,
}

/// The ordered list of enumerator constants of an `enum` definition:
/// each holds an interned name and its integer value.
#[derive(PartialEq, Eq, Debug)]
pub enum EnumMembers {
    Nil,
    Cons(u64, i64, Box<EnumMembers>),
}

impl EnumMembers {
    /// The value of the first enumerator carrying `name`, if any.
    pub open spec fn spec_find(self, name: u64) -> Option<i64>
        decreases self,
    {
        match self {
            EnumMembers::Nil => None,
            EnumMembers::Cons(member, value, rest) => if member == name {
                Some(value)
            } else {
                rest.spec_find(name)
            },
        }
    }

    pub fn find(&self, name: u64) -> (r: Option<i64>)
        ensures
            r == self.spec_find(name),
        decreases self,
    {
        match self {
            EnumMembers::Nil => None,
            EnumMembers::Cons(member, value, rest) => if *member == name {
                Some(*value)
            } else {
                rest.find(name)
            },
        }
    }
}

impl Clone for EnumMembers {
    fn clone(&self) -> (r: Self)
        ensures
            r == *self,
        decreases self,
    {
        match self {
            EnumMembers::Nil => EnumMembers::Nil,
            EnumMembers::Cons(member, value, rest) => EnumMembers::Cons(
                *member,
                *value,
                Box::new((**rest).clone()),
            ),
        }
    }
}

/// A C type. The `bool` carried by the integer families is the signedness
/// flag: `true` means signed. `Error` is the sentinel that keeps analysis
/// moving after a reported error.
#[derive(PartialEq, Eq, Debug)]
pub enum Type {
    Void,
    Bool,
    Char(bool),
    Short(bool),
    Int(bool),
    Long(bool),
    Float,
    Double,
    Pointer(Box<Type>, Qualifiers),
    Array(Box<Type>, ArrayType),
    Function(FunctionSignature),
    Struct(AggregateInfo),
    Union(AggregateInfo),
    Enum(u64, EnumMembers),
    Error,
}

impl Clone for Type {
    fn clone(&self) -> (r: Self)
        ensures
            r == *self,
        decreases self,
    {
        match self {
            Type::Void => Type::Void,
            Type::Bool => Type::Bool,
            Type::Char(signed) => Type::Char(*signed),
            Type::Short(signed) => Type::Short(*signed),
            Type::Int(signed) => Type::Int(*signed),
            Type::Long(signed) => Type::Long(*signed),
            Type::Float => Type::Float,
            Type::Double => Type::Double,
            Type::Pointer(to, quals) => Type::Pointer(Box::new((**to).clone()), *quals),
            Type::Array(of, size) => Type::Array(Box::new((**of).clone()), *size),
            Type::Function(sig) => Type::Function(*sig),
            Type::Struct(info) => Type::Struct(*info),
            Type::Union(info) => Type::Union(*info),
            Type::Enum(tag, members) => Type::Enum(*tag, members.clone()),
            Type::Error => Type::Error,
        }
    }
}

impl Type {
    /// Bool and the four integer families. Enumerations count as scalar but
    /// not as integral here; their rank and sign are still defined below.
    pub open spec fn spec_is_integral(&self) -> bool {
        match *self {
            Type::Bool | Type::Char(_) | Type::Short(_) | Type::Int(_) | Type::Long(_) => true,
            _ => false,
        }
    }

    #[verifier::when_used_as_spec(spec_is_integral)]
    pub fn is_integral(&self) -> (r: bool)
        ensures
            r == self.spec_is_integral(),
    {
        match self {
            Type::Bool | Type::Char(_) | Type::Short(_) | Type::Int(_) | Type::Long(_) => true,
            _ => false,
        }
    }

    pub open spec fn spec_is_floating(&self) -> bool {
        match *self {
            Type::Float | Type::Double => true,
            _ => false,
        }
    }

    #[verifier::when_used_as_spec(spec_is_floating)]
    pub fn is_floating(&self) -> (r: bool)
        ensures
            r == self.spec_is_floating(),
    {
        match self {
            Type::Float | Type::Double => true,
            _ => false,
        }
    }

    /// Integral or floating.
    pub open spec fn spec_is_arithmetic(&self) -> bool {
        self.spec_is_integral() || self.spec_is_floating()
    }

    #[verifier::when_used_as_spec(spec_is_arithmetic)]
    pub fn is_arithmetic(&self) -> (r: bool)
        ensures
            r == self.spec_is_arithmetic(),
    {
        self.is_integral() || self.is_floating()
    }

    pub open spec fn spec_is_pointer(&self) -> bool {
        match *self {
            Type::Pointer(_, _) => true,
            _ => false,
        }
    }

    #[verifier::when_used_as_spec(spec_is_pointer)]
    pub fn is_pointer(&self) -> (r: bool)
        ensures
            r == self.spec_is_pointer(),
    {
        match self {
            Type::Pointer(_, _) => true,
            _ => false,
        }
    }

    pub open spec fn spec_is_bool(&self) -> bool {
        *self == Type::Bool
    }

    #[verifier::when_used_as_spec(spec_is_bool)]
    pub fn is_bool(&self) -> (r: bool)
        ensures
            r == self.spec_is_bool(),
    {
        match self {
            Type::Bool => true,
            _ => false,
        }
    }

    pub open spec fn spec_is_void_pointer(&self) -> bool {
        match *self {
            Type::Pointer(to, _) => *to == Type::Void,
            _ => false,
        }
    }

    #[verifier::when_used_as_spec(spec_is_void_pointer)]
    pub fn is_void_pointer(&self) -> (r: bool)
        ensures
            r == self.spec_is_void_pointer(),
    {
        match self {
            Type::Pointer(to, _) => match &**to {
                Type::Void => true,
                _ => false,
            },
            _ => false,
        }
    }

    pub open spec fn spec_is_char_pointer(&self) -> bool {
        match *self {
            Type::Pointer(to, _) => match *to {
                Type::Char(_) => true,
                _ => false,
            },
            _ => false,
        }
    }

    #[verifier::when_used_as_spec(spec_is_char_pointer)]
    pub fn is_char_pointer(&self) -> (r: bool)
        ensures
            r == self.spec_is_char_pointer(),
    {
        match self {
            Type::Pointer(to, _) => match &**to {
                Type::Char(_) => true,
                _ => false,
            },
            _ => false,
        }
    }

    pub open spec fn spec_is_function(&self) -> bool {
        match *self {
            Type::Function(_) => true,
            _ => false,
        }
    }

    #[verifier::when_used_as_spec(spec_is_function)]
    pub fn is_function(&self) -> (r: bool)
        ensures
            r == self.spec_is_function(),
    {
        match self {
            Type::Function(_) => true,
            _ => false,
        }
    }

    /// Struct or union.
    pub open spec fn spec_is_struct(&self) -> bool {
        match *self {
            Type::Struct(_) | Type::Union(_) => true,
            _ => false,
        }
    }

    #[verifier::when_used_as_spec(spec_is_struct)]
    pub fn is_struct(&self) -> (r: bool)
        ensures
            r == self.spec_is_struct(),
    {
        match self {
            Type::Struct(_) | Type::Union(_) => true,
            _ => false,
        }
    }

    /// Arithmetic, pointer, or enumeration.
    pub open spec fn spec_is_scalar(&self) -> bool {
        self.spec_is_arithmetic() || self.spec_is_pointer() || match *self {
            Type::Enum(_, _) => true,
            _ => false,
        }
    }

    #[verifier::when_used_as_spec(spec_is_scalar)]
    pub fn is_scalar(&self) -> (r: bool)
        ensures
            r == self.spec_is_scalar(),
    {
        self.is_arithmetic() || self.is_pointer() || match self {
            Type::Enum(_, _) => true,
            _ => false,
        }
    }

    /// A type whose size is known at this point of analysis: everything but
    /// `Void`, function types, and arrays of unknown bound.
    pub open spec fn spec_is_complete(&self) -> bool {
        match *self {
            Type::Void | Type::Function(_) => false,
            Type::Array(_, ArrayType::Unbounded) => false,
            _ => true,
        }
    }

    #[verifier::when_used_as_spec(spec_is_complete)]
    pub fn is_complete(&self) -> (r: bool)
        ensures
            r == self.spec_is_complete(),
    {
        match self {
            Type::Void | Type::Function(_) => false,
            Type::Array(_, ArrayType::Unbounded) => false,
            _ => true,
        }
    }

    /// A pointer to a complete non-function type, or any array type; the
    /// operand shape that admits pointer addition and subtraction.
    pub open spec fn spec_is_pointer_to_complete_object(&self) -> bool {
        match *self {
            Type::Pointer(to, _) => to.spec_is_complete() && !to.spec_is_function(),
            Type::Array(_, _) => true,
            _ => false,
        }
    }

    #[verifier::when_used_as_spec(spec_is_pointer_to_complete_object)]
    pub fn is_pointer_to_complete_object(&self) -> (r: bool)
        ensures
            r == self.spec_is_pointer_to_complete_object(),
    {
        match self {
            Type::Pointer(to, _) => to.is_complete() && !to.is_function(),
            Type::Array(_, _) => true,
            _ => false,
        }
    }

    /// The types on which `sign` is defined: Bool, the integer families,
    /// and enumerations.
    pub open spec fn spec_sign_defined(&self) -> bool {
        self.spec_is_integral() || match *self {
            Type::Enum(_, _) => true,
            _ => false,
        }
    }

    #[verifier::when_used_as_spec(spec_sign_defined)]
    pub fn sign_defined(&self) -> (r: bool)
        ensures
            r == self.spec_sign_defined(),
    {
        self.is_integral() || match self {
            Type::Enum(_, _) => true,
            _ => false,
        }
    }

    /// The domain of the usual-arithmetic conversion: arithmetic types and
    /// enumerations. Operands outside it have already been reported by the
    /// operator rules, which then skip the conversion instead of taking the
    /// sign of a type that has none.
    pub open spec fn spec_is_promotable(&self) -> bool {
        self.spec_is_arithmetic() || match *self {
            Type::Enum(_, _) => true,
            _ => false,
        }
    }

    #[verifier::when_used_as_spec(spec_is_promotable)]
    pub fn is_promotable(&self) -> (r: bool)
        ensures
            r == self.spec_is_promotable(),
    {
        self.is_arithmetic() || match self {
            Type::Enum(_, _) => true,
            _ => false,
        }
    }

    /// Whether the type is signed. Defined only where `sign_defined` holds;
    /// enumerations count as signed.
    pub open spec fn spec_sign(&self) -> bool {
        match *self {
            Type::Char(signed) | Type::Short(signed) | Type::Int(signed) | Type::Long(signed) => signed,
            Type::Bool => false,
            Type::Enum(_, _) => true,
            _ => false,
        }
    }

    #[verifier::when_used_as_spec(spec_sign)]
    pub fn sign(&self) -> (r: bool)
        requires
            self.spec_sign_defined(),
        ensures
            r == self.spec_sign(),
    {
        match self {
            Type::Char(signed) | Type::Short(signed) | Type::Int(signed) | Type::Long(signed) => *signed,
            Type::Bool => false,
            Type::Enum(_, _) => true,
            _ => false,
        }
    }

    /// Integer conversion rank: Bool < Char < Short < Int < Long. All other
    /// types rank maximal and must never have their ranks compared.
    pub open spec fn spec_rank(&self) -> usize {
        match *self {
            Type::Bool => 0usize,
            Type::Char(_) => 1usize,
            Type::Short(_) => 2usize,
            Type::Int(_) => 3usize,
            Type::Long(_) => 4usize,
            _ => usize::MAX,
        }
    }

    #[verifier::when_used_as_spec(spec_rank)]
    pub fn rank(&self) -> (r: usize)
        ensures
            r == self.spec_rank(),
    {
        match self {
            Type::Bool => 0,
            Type::Char(_) => 1,
            Type::Short(_) => 2,
            Type::Int(_) => 3,
            Type::Long(_) => 4,
            _ => usize::MAX,
        }
    }

    /// Least value of a sign-defined type.
    pub open spec fn spec_min_value(&self) -> int {
        match *self {
            Type::Bool => 0,
            Type::Char(signed) => if signed { -128int } else { 0 },
            Type::Short(signed) => if signed { -32768int } else { 0 },
            Type::Int(signed) => if signed { -0x8000_0000int } else { 0 },
            Type::Long(signed) => if signed { -0x8000_0000_0000_0000int } else { 0 },
            Type::Enum(_, _) => -0x8000_0000int,
            _ => 0,
        }
    }

    /// Greatest value of a sign-defined type.
    pub open spec fn spec_max_value(&self) -> int {
        match *self {
            Type::Bool => 1,
            Type::Char(signed) => if signed { 127int } else { 255 },
            Type::Short(signed) => if signed { 32767int } else { 65535 },
            Type::Int(signed) => if signed { 0x7FFF_FFFFint } else { 0xFFFF_FFFF },
            Type::Long(signed) => if signed { 0x7FFF_FFFF_FFFF_FFFFint } else { 0xFFFF_FFFF_FFFF_FFFF },
            Type::Enum(_, _) => 0x7FFF_FFFFint,
            _ => 0,
        }
    }

    /// Value-range containment: every value of `other` is a value of `self`.
    pub open spec fn spec_can_represent(&self, other: &Type) -> bool {
        self.spec_min_value() <= other.spec_min_value() && other.spec_max_value()
            <= self.spec_max_value()
    }

    /// Both bounds of a sign-defined type, in one machine word pair.
    fn value_bounds(&self) -> (r: (i128, i128))
        requires
            self.spec_sign_defined(),
        ensures
            r.0 as int == self.spec_min_value(),
            r.1 as int == self.spec_max_value(),
    {
        match self {
            Type::Bool => (0, 1),
            Type::Char(signed) => if *signed { (-128, 127) } else { (0, 255) },
            Type::Short(signed) => if *signed { (-32768, 32767) } else { (0, 65535) },
            Type::Int(signed) => if *signed { (-0x8000_0000, 0x7FFF_FFFF) } else { (0, 0xFFFF_FFFF) },
            Type::Long(signed) => if *signed {
                (-0x8000_0000_0000_0000, 0x7FFF_FFFF_FFFF_FFFF)
            } else {
                (0, 0xFFFF_FFFF_FFFF_FFFF)
            },
            Type::Enum(_, _) => (-0x8000_0000, 0x7FFF_FFFF),
            _ => (0, 0),
        }
    }

    #[verifier::when_used_as_spec(spec_can_represent)]
    pub fn can_represent(&self, other: &Type) -> (r: bool)
        requires
            self.spec_sign_defined(),
            other.spec_sign_defined(),
        ensures
            r == self.spec_can_represent(other),
    {
        let own: (i128, i128) = self.value_bounds();
        let theirs: (i128, i128) = other.value_bounds();
        own.0 <= theirs.0 && theirs.1 <= own.1
    }

    /// Integer promotion: any type of rank at most `Int`'s becomes `Int` if
    /// `Int` can represent all its values, else unsigned `Int`; higher ranks
    /// and non-integral types are unchanged.
    pub open spec fn spec_integer_promote(&self) -> Type {
        if self.spec_rank() <= Type::Int(true).spec_rank() {
            if Type::Int(true).spec_can_represent(self) {
                Type::Int(true)
            } else {
                Type::Int(false)
            }
        } else {
            *self
        }
    }

    pub fn integer_promote(&self) -> (r: Type)
        ensures
            r == self.spec_integer_promote(),
    {
        if self.rank() <= Type::Int(true).rank() {
            if Type::Int(true).can_represent(self) {
                Type::Int(true)
            } else {
                Type::Int(false)
            }
        } else {
            self.clone()
        }
    }

    /// The usual arithmetic conversion on a pair of types: `Double` wins,
    /// then `Float`; otherwise both are integer-promoted, matching signs take
    /// the higher rank, and differing signs take the signed type when it can
    /// represent every value of the unsigned one, else the unsigned type.
    pub open spec fn spec_binary_promote(a: Type, b: Type) -> Type {
        if a == Type::Double || b == Type::Double {
            Type::Double
        } else if a == Type::Float || b == Type::Float {
            Type::Float
        } else {
            let ap = a.spec_integer_promote();
            let bp = b.spec_integer_promote();
            if ap.spec_sign() == bp.spec_sign() {
                if ap.spec_rank() >= bp.spec_rank() {
                    ap
                } else {
                    bp
                }
            } else {
                let signed = if ap.spec_sign() {
                    ap
                } else {
                    bp
                };
                let unsigned = if ap.spec_sign() {
                    bp
                } else {
                    ap
                };
                if signed.spec_can_represent(&unsigned) {
                    signed
                } else {
                    unsigned
                }
            }
        }
    }

    pub fn binary_promote(left: &Type, right: &Type) -> (r: Type)
        requires
            left.spec_is_promotable(),
            right.spec_is_promotable(),
        ensures
            r == Type::spec_binary_promote(*left, *right),
    {
        if type_eq(left, &Type::Double) || type_eq(right, &Type::Double) {
            Type::Double
        } else if type_eq(left, &Type::Float) || type_eq(right, &Type::Float) {
            Type::Float
        } else {
            let left_promoted = left.integer_promote();
            let right_promoted = right.integer_promote();
            if left_promoted.sign() == right_promoted.sign() {
                if left_promoted.rank() >= right_promoted.rank() {
                    left_promoted
                } else {
                    right_promoted
                }
            } else if left_promoted.sign() {
                if left_promoted.can_represent(&right_promoted) {
                    left_promoted
                } else {
                    right_promoted
                }
            } else {
                if right_promoted.can_represent(&left_promoted) {
                    right_promoted
                } else {
                    left_promoted
                }
            }
        }
    }

    /// Size in bytes, where this pass can determine it.
    pub open spec fn spec_sizeof(&self) -> Option<u64>
        decreases self,
    {
        match *self {
            Type::Bool | Type::Char(_) => Some(1u64),
            Type::Short(_) => Some(2u64),
            Type::Int(_) | Type::Float => Some(4u64),
            Type::Long(_) | Type::Double => Some(8u64),
            Type::Pointer(_, _) => Some(8u64),
            Type::Enum(_, _) => Some(4u64),
            Type::Array(of, ArrayType::Fixed(n)) => match of.spec_sizeof() {
                Some(s) => if n * s <= u64::MAX {
                    Some((n * s) as u64)
                } else {
                    None
                },
                None => None,
            },
            Type::Struct(info) | Type::Union(info) => Some(info.size),
            _ => None,
        }
    }

    pub fn sizeof(&self) -> (r: Option<u64>)
        ensures
            r == self.spec_sizeof(),
        decreases self,
    {
        match self {
            Type::Bool | Type::Char(_) => Some(1),
            Type::Short(_) => Some(2),
            Type::Int(_) | Type::Float => Some(4),
            Type::Long(_) | Type::Double => Some(8),
            Type::Pointer(_, _) => Some(8),
            Type::Enum(_, _) => Some(4),
            Type::Array(of, ArrayType::Fixed(n)) => match of.sizeof() {
                Some(s) => (*n).checked_mul(s),
                None => None,
            },
            Type::Struct(info) | Type::Union(info) => Some(info.size),
            _ => None,
        }
    }
}

/// Integer promotion of an integral type of rank at most `Int`'s always
/// yields `Int` or unsigned `Int`, and never the type itself unless that
/// type already has `Int`'s rank.
pub proof fn lemma_integer_promote_small(t: Type)
    requires
        t.spec_is_integral(),
        t.spec_rank() <= Type::Int(true).spec_rank(),
    ensures
        t.spec_integer_promote() == Type::Int(true) || t.spec_integer_promote() == Type::Int(false),
        t.spec_integer_promote() == t ==> t == Type::Int(true) || t == Type::Int(false),
{
}

/// After integer promotion, an integral type is `Int` or `Long` with some
/// sign; in particular its sign and rank determine it completely.
pub proof fn lemma_integer_promote_shape(t: Type)
    requires
        t.spec_is_integral(),
    ensures
        t.spec_integer_promote() == Type::Int(t.spec_integer_promote().spec_sign())
            || t.spec_integer_promote() == Type::Long(t.spec_integer_promote().spec_sign()),
{
}

/// The usual arithmetic conversion does not depend on the order of its two
/// operands: for all pairs of arithmetic types the promoted type is the same
/// both ways.
pub proof fn lemma_binary_promote_commutative(a: Type, b: Type)
    requires
        a.spec_is_arithmetic(),
        b.spec_is_arithmetic(),
    ensures
        Type::spec_binary_promote(a, b) == Type::spec_binary_promote(b, a),
{
    if a == Type::Double || b == Type::Double {
    } else if a == Type::Float || b == Type::Float {
    } else {
        lemma_integer_promote_shape(a);
        lemma_integer_promote_shape(b);
    }
}

/// Structural equality on types, usable from verified code.
pub fn type_eq(a: &Type, b: &Type) -> (r: bool)
    ensures
        r == (*a == *b),
    decreases a,
{
    match (a, b) {
        (Type::Void, Type::Void) => true,
        (Type::Bool, Type::Bool) => true,
        (Type::Char(x), Type::Char(y)) => *x == *y,
        (Type::Short(x), Type::Short(y)) => *x == *y,
        (Type::Int(x), Type::Int(y)) => *x == *y,
        (Type::Long(x), Type::Long(y)) => *x == *y,
        (Type::Float, Type::Float) => true,
        (Type::Double, Type::Double) => true,
        (Type::Pointer(t1, q1), Type::Pointer(t2, q2)) => *q1 == *q2 && type_eq(&**t1, &**t2),
        (Type::Array(t1, s1), Type::Array(t2, s2)) => *s1 == *s2 && type_eq(&**t1, &**t2),
        (Type::Function(f1), Type::Function(f2)) => *f1 == *f2,
        (Type::Struct(i1), Type::Struct(i2)) => *i1 == *i2,
        (Type::Union(i1), Type::Union(i2)) => *i1 == *i2,
        (Type::Enum(g1, m1), Type::Enum(g2, m2)) => *g1 == *g2 && enum_members_eq(m1, m2),
        (Type::Error, Type::Error) => true,
        _ => false,
    }
}

/// Structural equality on enumerator lists.
pub fn enum_members_eq(a: &EnumMembers, b: &EnumMembers) -> (r: bool)
    ensures
        r == (*a == *b),
    decreases a,
{
    match (a, b) {
        (EnumMembers::Nil, EnumMembers::Nil) => true,
        (EnumMembers::Cons(n1, v1, r1), EnumMembers::Cons(n2, v2, r2)) => *n1 == *n2 && *v1 == *v2
            && enum_members_eq(&**r1, &**r2),
        _ => false,
    }
}

} // verus!
