//! The types of the typed program.

use crate::list::List;
use vstd::prelude::*;

verus! {

/// The width of an unsigned integer type.
#[derive(Clone, Copy, PartialEq, Eq, Structural, Debug, Hash)]
pub enum UBitwidth {
    B8,
    B16,
    B32,
    B64,
}

impl UBitwidth {
    pub open spec fn bits(self) -> nat {
        match self {
            UBitwidth::B8 => 8,
            UBitwidth::B16 => 16,
            UBitwidth::B32 => 32,
            UBitwidth::B64 => 64,
        }
    }

    /// `2^bits`, the number of values of the type.
    pub open spec fn range(self) -> nat {
        match self {
            UBitwidth::B8 => 0x100,
            UBitwidth::B16 => 0x1_0000,
            UBitwidth::B32 => 0x1_0000_0000,
            UBitwidth::B64 => 0x1_0000_0000_0000_0000,
        }
    }

    pub fn to_usize(&self) -> (r: usize)
        ensures
            r == self.bits(),
    {
        match self {
            UBitwidth::B8 => 8,
            UBitwidth::B16 => 16,
            UBitwidth::B32 => 32,
            UBitwidth::B64 => 64,
        }
    }

    /// `2^bits` as a machine integer.
    pub fn modulus(&self) -> (r: u128)
        ensures
            r == self.range(),
    {
        match self {
            UBitwidth::B8 => 0x100,
            UBitwidth::B16 => 0x1_0000,
            UBitwidth::B32 => 0x1_0000_0000,
            UBitwidth::B64 => 0x1_0000_0000_0000_0000,
        }
    }
}

/// The length of an array type: a number, or a generic parameter of the
/// enclosing function that has not been given a value yet.
#[derive(Clone, Copy, PartialEq, Eq, Structural, Debug, Hash)]
pub enum ArraySize {
    Constant(u32),
    Generic(u64),
}

#[derive(Debug, PartialEq)]
pub enum Type {
    FieldElement,
    Boolean,
    Uint(UBitwidth),
    Array(ArrayType),
    Struct(StructType),
    Tuple(TupleType),
}

#[derive(Debug, PartialEq)]
pub struct ArrayType {
    pub ty: Box<Type>,
    pub size: ArraySize,
}

/// A struct type, named by the module that declares it and its name there.
#[derive(Debug, PartialEq)]
pub struct StructType {
    pub module: u64,
    pub name: u64,
    pub members: List<StructMember>,
}

#[derive(Debug, PartialEq)]
pub struct StructMember {
    pub id: u64,
    pub ty: Type,
}

#[derive(Debug, PartialEq)]
pub struct TupleType {
    pub elements: List<Type>,
}

impl Type {
    /// Whether every array length in the type is a number.
    pub open spec fn is_concrete(self) -> bool
        decreases self,
    {
        match self {
            Type::FieldElement | Type::Boolean | Type::Uint(_) => true,
            Type::Array(a) => a.size is Constant && a.ty.is_concrete(),
            Type::Struct(s) => members_concrete(s.members),
            Type::Tuple(t) => types_concrete(t.elements),
        }
    }

    pub fn array(ty: Type, size: u32) -> (r: Type)
        ensures
            r == Type::Array(ArrayType { ty: Box::new(ty), size: ArraySize::Constant(size) }),
    {
        Type::Array(ArrayType { ty: Box::new(ty), size: ArraySize::Constant(size) })
    }

    pub fn concrete(&self) -> (r: bool)
        ensures
            r == self.is_concrete(),
        decreases *self,
    {
        match self {
            Type::FieldElement => true,
            Type::Boolean => true,
            Type::Uint(_) => true,
            Type::Array(a) => {
                match a.size {
                    ArraySize::Constant(_) => a.ty.concrete(),
                    ArraySize::Generic(_) => false,
                }
            },
            Type::Struct(s) => check_members_concrete(&s.members),
            Type::Tuple(t) => check_types_concrete(&t.elements),
        }
    }

    /// Whether the two types are the same type.
    pub fn same(&self, other: &Type) -> (r: bool)
        ensures
            r == (*self == *other),
        decreases *self,
    {
        match (self, other) {
            (Type::FieldElement, Type::FieldElement) => true,
            (Type::Boolean, Type::Boolean) => true,
            (Type::Uint(a), Type::Uint(b)) => *a == *b,
            (Type::Array(a), Type::Array(b)) => a.same(b),
            (Type::Struct(a), Type::Struct(b)) => a.same(b),
            (Type::Tuple(a), Type::Tuple(b)) => same_types(&a.elements, &b.elements),
            _ => false,
        }
    }
}

impl Clone for Type {
    fn clone(&self) -> (r: Self)
        ensures
            r == *self,
        decreases *self,
    {
        match self {
            Type::FieldElement => Type::FieldElement,
            Type::Boolean => Type::Boolean,
            Type::Uint(b) => Type::Uint(*b),
            Type::Array(a) => Type::Array(a.clone()),
            Type::Struct(s) => Type::Struct(s.clone()),
            Type::Tuple(t) => Type::Tuple(TupleType { elements: clone_types(&t.elements) }),
        }
    }
}

impl ArrayType {
    pub fn same(&self, other: &ArrayType) -> (r: bool)
        ensures
            r == (*self == *other),
        decreases *self,
    {
        self.size == other.size && self.ty.same(&other.ty)
    }
}

impl Clone for ArrayType {
    fn clone(&self) -> (r: Self)
        ensures
            r == *self,
        decreases *self,
    {
        ArrayType { ty: Box::new((*self.ty).clone()), size: self.size }
    }
}

impl StructType {
    pub fn same(&self, other: &StructType) -> (r: bool)
        ensures
            r == (*self == *other),
        decreases *self,
    {
        self.module == other.module && self.name == other.name && same_members(
            &self.members,
            &other.members,
        )
    }
}

impl Clone for StructType {
    fn clone(&self) -> (r: Self)
        ensures
            r == *self,
        decreases *self,
    {
        StructType { module: self.module, name: self.name, members: clone_members(&self.members) }
    }
}

impl Clone for TupleType {
    fn clone(&self) -> (r: Self)
        ensures
            r == *self,
    {
        TupleType { elements: clone_types(&self.elements) }
    }
}

pub open spec fn types_concrete(l: List<Type>) -> bool
    decreases l,
{
    match l {
        List::Nil => true,
        List::Cons(n) => n.head.is_concrete() && types_concrete(n.tail),
    }
}

pub open spec fn members_concrete(l: List<StructMember>) -> bool
    decreases l,
{
    match l {
        List::Nil => true,
        List::Cons(n) => n.head.ty.is_concrete() && members_concrete(n.tail),
    }
}

pub fn check_types_concrete(l: &List<Type>) -> (r: bool)
    ensures
        r == types_concrete(*l),
    decreases *l,
{
    match l {
        List::Nil => true,
        List::Cons(n) => n.head.concrete() && check_types_concrete(&n.tail),
    }
}

pub fn check_members_concrete(l: &List<StructMember>) -> (r: bool)
    ensures
        r == members_concrete(*l),
    decreases *l,
{
    match l {
        List::Nil => true,
        List::Cons(n) => n.head.ty.concrete() && check_members_concrete(&n.tail),
    }
}

pub fn same_types(a: &List<Type>, b: &List<Type>) -> (r: bool)
    ensures
        r == (*a == *b),
    decreases *a,
{
    match (a, b) {
        (List::Nil, List::Nil) => true,
        (List::Cons(x), List::Cons(y)) => x.head.same(&y.head) && same_types(&x.tail, &y.tail),
        _ => false,
    }
}

pub fn same_members(a: &List<StructMember>, b: &List<StructMember>) -> (r: bool)
    ensures
        r == (*a == *b),
    decreases *a,
{
    match (a, b) {
        (List::Nil, List::Nil) => true,
        (List::Cons(x), List::Cons(y)) => x.head.id == y.head.id && x.head.ty.same(&y.head.ty)
            && same_members(&x.tail, &y.tail),
        _ => false,
    }
}

pub fn clone_types(l: &List<Type>) -> (r: List<Type>)
    ensures
        r == *l,
    decreases *l,
{
    match l {
        List::Nil => List::Nil,
        List::Cons(n) => List::cons(n.head.clone(), clone_types(&n.tail)),
    }
}

pub fn clone_members(l: &List<StructMember>) -> (r: List<StructMember>)
    ensures
        r == *l,
    decreases *l,
{
    match l {
        List::Nil => List::Nil,
        List::Cons(n) => List::cons(
            StructMember { id: n.head.id, ty: n.head.ty.clone() },
            clone_members(&n.tail),
        ),
    }
}

} // verus!
