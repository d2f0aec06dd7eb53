//! The typed program: expressions over field elements, booleans, unsigned
//! integers, arrays, structs and tuples, and the statements built from them.
//!
//! Every family of expressions is a tree of owned nodes. Aggregates hold their
//! elements in [`List`], so a tree is a plain value and can stand in a
//! specification as it is.

use crate::common::{FormatString, RuntimeError, Span};
use crate::expressions::{
    BinaryExpression, IdentifierExpression, UnaryExpression, ValueExpression,
};
use crate::list::List;
use crate::operators::{
    OpAdd, OpAnd, OpDiv, OpEq, OpFloorSub, OpLe, OpLsh, OpLt, OpMul, OpNeg, OpNot, OpOr, OpPos,
    OpPow, OpRem, OpRsh, OpSub, OpXor,
};
use crate::types::{ArraySize, ArrayType, StructType, TupleType, Type, UBitwidth};
use vstd::prelude::*;

verus! {

/// The name of a variable of the typed program, unique per assignment.
#[derive(Clone, Copy, PartialEq, Eq, Structural, Debug, Hash)]
pub struct Identifier {
    pub id: u64,
}

/// A variable together with its declared type.
#[derive(Debug, PartialEq)]
pub struct Variable {
    pub id: Identifier,
    pub ty: Type,
}

/// How a conditional was written in the source.
#[derive(Clone, Copy, PartialEq, Eq, Structural, Debug, Hash)]
pub enum ConditionalKind {
    IfElse,
    Ternary,
}

/// `condition ? consequence : alternative`.
#[derive(Debug, PartialEq)]
pub struct ConditionalExpression<T, E> {
    pub span: Option<Span>,
    pub condition: Box<BooleanExpression<T>>,
    pub consequence: Box<E>,
    pub alternative: Box<E>,
    pub kind: ConditionalKind,
}

/// `array[index]`.
#[derive(Debug, PartialEq)]
pub struct SelectExpression<T> {
    pub span: Option<Span>,
    pub array: Box<ArrayExpression<T>>,
    pub index: Box<UExpression<T>>,
}

/// `struc.id`.
#[derive(Debug, PartialEq)]
pub struct MemberExpression<T> {
    pub span: Option<Span>,
    pub struc: Box<StructExpression<T>>,
    pub id: u64,
}

/// `tuple.index`.
#[derive(Debug, PartialEq)]
pub struct ElementExpression<T> {
    pub span: Option<Span>,
    pub tuple: Box<TupleExpression<T>>,
    pub index: u32,
}

#[derive(Debug, PartialEq)]
pub enum FieldElementExpression<T> {
    Number(ValueExpression<T>),
    Identifier(IdentifierExpression<Identifier, FieldElementExpression<T>>),
    Add(BinaryExpression<OpAdd, FieldElementExpression<T>, FieldElementExpression<T>, FieldElementExpression<T>>),
    Sub(BinaryExpression<OpSub, FieldElementExpression<T>, FieldElementExpression<T>, FieldElementExpression<T>>),
    Mult(BinaryExpression<OpMul, FieldElementExpression<T>, FieldElementExpression<T>, FieldElementExpression<T>>),
    Div(BinaryExpression<OpDiv, FieldElementExpression<T>, FieldElementExpression<T>, FieldElementExpression<T>>),
    Pow(BinaryExpression<OpPow, FieldElementExpression<T>, UExpression<T>, FieldElementExpression<T>>),
    Neg(UnaryExpression<OpNeg, FieldElementExpression<T>, FieldElementExpression<T>>),
    Pos(UnaryExpression<OpPos, FieldElementExpression<T>, FieldElementExpression<T>>),
    Conditional(ConditionalExpression<T, FieldElementExpression<T>>),
    Select(SelectExpression<T>),
    Member(MemberExpression<T>),
    Element(ElementExpression<T>),
}

#[derive(Debug, PartialEq)]
pub enum BooleanExpression<T> {
    Value(ValueExpression<bool>),
    Identifier(IdentifierExpression<Identifier, BooleanExpression<T>>),
    FieldLt(BinaryExpression<OpLt, FieldElementExpression<T>, FieldElementExpression<T>, BooleanExpression<T>>),
    FieldLe(BinaryExpression<OpLe, FieldElementExpression<T>, FieldElementExpression<T>, BooleanExpression<T>>),
    UintLt(BinaryExpression<OpLt, UExpression<T>, UExpression<T>, BooleanExpression<T>>),
    UintLe(BinaryExpression<OpLe, UExpression<T>, UExpression<T>, BooleanExpression<T>>),
    FieldEq(BinaryExpression<OpEq, FieldElementExpression<T>, FieldElementExpression<T>, BooleanExpression<T>>),
    BoolEq(BinaryExpression<OpEq, BooleanExpression<T>, BooleanExpression<T>, BooleanExpression<T>>),
    ArrayEq(BinaryExpression<OpEq, ArrayExpression<T>, ArrayExpression<T>, BooleanExpression<T>>),
    StructEq(BinaryExpression<OpEq, StructExpression<T>, StructExpression<T>, BooleanExpression<T>>),
    TupleEq(BinaryExpression<OpEq, TupleExpression<T>, TupleExpression<T>, BooleanExpression<T>>),
    UintEq(BinaryExpression<OpEq, UExpression<T>, UExpression<T>, BooleanExpression<T>>),
    Or(BinaryExpression<OpOr, BooleanExpression<T>, BooleanExpression<T>, BooleanExpression<T>>),
    And(BinaryExpression<OpAnd, BooleanExpression<T>, BooleanExpression<T>, BooleanExpression<T>>),
    Not(UnaryExpression<OpNot, BooleanExpression<T>, BooleanExpression<T>>),
    Conditional(ConditionalExpression<T, BooleanExpression<T>>),
    Select(SelectExpression<T>),
    Member(MemberExpression<T>),
    Element(ElementExpression<T>),
}

/// An unsigned integer expression and the width of its type.
#[derive(Debug, PartialEq)]
pub struct UExpression<T> {
    pub bitwidth: UBitwidth,
    pub inner: UExpressionInner<T>,
}

#[derive(Debug, PartialEq)]
pub enum UExpressionInner<T> {
    Value(ValueExpression<u128>),
    Identifier(IdentifierExpression<Identifier, UExpression<T>>),
    Add(BinaryExpression<OpAdd, UExpression<T>, UExpression<T>, UExpression<T>>),
    Sub(BinaryExpression<OpSub, UExpression<T>, UExpression<T>, UExpression<T>>),
    FloorSub(BinaryExpression<OpFloorSub, UExpression<T>, UExpression<T>, UExpression<T>>),
    Mult(BinaryExpression<OpMul, UExpression<T>, UExpression<T>, UExpression<T>>),
    Div(BinaryExpression<OpDiv, UExpression<T>, UExpression<T>, UExpression<T>>),
    Rem(BinaryExpression<OpRem, UExpression<T>, UExpression<T>, UExpression<T>>),
    Xor(BinaryExpression<OpXor, UExpression<T>, UExpression<T>, UExpression<T>>),
    And(BinaryExpression<OpAnd, UExpression<T>, UExpression<T>, UExpression<T>>),
    Or(BinaryExpression<OpOr, UExpression<T>, UExpression<T>, UExpression<T>>),
    LeftShift(BinaryExpression<OpLsh, UExpression<T>, UExpression<T>, UExpression<T>>),
    RightShift(BinaryExpression<OpRsh, UExpression<T>, UExpression<T>, UExpression<T>>),
    Not(UnaryExpression<OpNot, UExpression<T>, UExpression<T>>),
    Neg(UnaryExpression<OpNeg, UExpression<T>, UExpression<T>>),
    Pos(UnaryExpression<OpPos, UExpression<T>, UExpression<T>>),
    Conditional(ConditionalExpression<T, UExpression<T>>),
    Select(SelectExpression<T>),
    Member(MemberExpression<T>),
    Element(ElementExpression<T>),
}

/// An array expression and its type: the type of its elements and its length.
#[derive(Debug, PartialEq)]
pub struct ArrayExpression<T> {
    pub ty: ArrayType,
    pub inner: ArrayExpressionInner<T>,
}

#[derive(Debug, PartialEq)]
pub enum ArrayExpressionInner<T> {
    Value(ValueExpression<List<TypedExpressionOrSpread<T>>>),
    Identifier(IdentifierExpression<Identifier, ArrayExpression<T>>),
    Conditional(ConditionalExpression<T, ArrayExpression<T>>),
    Select(SelectExpression<T>),
    Member(MemberExpression<T>),
    Element(ElementExpression<T>),
}

#[derive(Debug, PartialEq)]
pub struct StructExpression<T> {
    pub ty: StructType,
    pub inner: StructExpressionInner<T>,
}

#[derive(Debug, PartialEq)]
pub enum StructExpressionInner<T> {
    Value(ValueExpression<List<TypedExpression<T>>>),
    Identifier(IdentifierExpression<Identifier, StructExpression<T>>),
    Conditional(ConditionalExpression<T, StructExpression<T>>),
    Select(SelectExpression<T>),
    Member(MemberExpression<T>),
    Element(ElementExpression<T>),
}

#[derive(Debug, PartialEq)]
pub struct TupleExpression<T> {
    pub ty: TupleType,
    pub inner: TupleExpressionInner<T>,
}

#[derive(Debug, PartialEq)]
pub enum TupleExpressionInner<T> {
    Value(ValueExpression<List<TypedExpression<T>>>),
    Identifier(IdentifierExpression<Identifier, TupleExpression<T>>),
    Conditional(ConditionalExpression<T, TupleExpression<T>>),
    Select(SelectExpression<T>),
    Member(MemberExpression<T>),
    Element(ElementExpression<T>),
}

/// An expression of any family.
#[derive(Debug, PartialEq)]
pub enum TypedExpression<T> {
    Boolean(BooleanExpression<T>),
    FieldElement(FieldElementExpression<T>),
    Uint(UExpression<T>),
    Array(ArrayExpression<T>),
    Struct(StructExpression<T>),
    Tuple(TupleExpression<T>),
}

/// `...array` inside an array literal: all elements of `array`, in place.
#[derive(Debug, PartialEq)]
pub struct TypedSpread<T> {
    pub array: ArrayExpression<T>,
}

#[derive(Debug, PartialEq)]
pub enum TypedExpressionOrSpread<T> {
    Expression(TypedExpression<T>),
    Spread(TypedSpread<T>),
}

/// What an assignment writes to: a variable or a place inside one.
#[derive(Debug, PartialEq)]
pub enum TypedAssignee<T> {
    Identifier(Variable),
    Select(Box<TypedAssignee<T>>, Box<UExpression<T>>),
    Member(Box<TypedAssignee<T>>, u64),
    Element(Box<TypedAssignee<T>>, u32),
}

/// The operations that the compiler knows by name.
#[derive(Clone, Copy, PartialEq, Eq, Structural, Debug, Hash)]
pub enum FlatEmbed {
    BitArrayLe,
    Unpack,
    U8ToBits,
    U16ToBits,
    U32ToBits,
    U64ToBits,
    U8FromBits,
    U16FromBits,
    U32FromBits,
    U64FromBits,
    Sha256Round,
    SnarkVerifyBls12377,
}

#[derive(Debug, PartialEq)]
pub struct EmbedCall<T> {
    pub embed: FlatEmbed,
    pub generics: List<u32>,
    pub arguments: List<TypedExpression<T>>,
}

#[derive(Debug, PartialEq)]
pub enum DefinitionRhs<T> {
    Expression(TypedExpression<T>),
    EmbedCall(EmbedCall<T>),
}

#[derive(Debug, PartialEq)]
pub enum TypedStatement<T> {
    Return(TypedExpression<T>),
    Definition(TypedAssignee<T>, DefinitionRhs<T>),
    Assertion(BooleanExpression<T>, RuntimeError),
    For(Variable, UExpression<T>, UExpression<T>, List<TypedStatement<T>>),
    Log(FormatString, List<TypedExpression<T>>),
    /// Entering the body of the call with this number.
    PushCallLog(u64),
    PopCallLog,
}

#[derive(Debug, PartialEq)]
pub struct TypedFunction<T> {
    pub arguments: List<Variable>,
    pub statements: List<TypedStatement<T>>,
    pub outputs: List<Type>,
}

/// What a name of a module stands for.
#[derive(Debug, PartialEq)]
pub enum TypedFunctionSymbol<T> {
    /// A function defined in this module.
    Here(TypedFunction<T>),
    /// The function of that name in the module of that number.
    There(u64, u64),
    Flat(FlatEmbed),
}

#[derive(Debug, PartialEq)]
pub struct TypedFunctionSymbolDeclaration<T> {
    /// The name of the function; see [`MAIN`].
    pub id: u64,
    pub symbol: TypedFunctionSymbol<T>,
}

#[derive(Debug, PartialEq)]
pub struct TypedModule<T> {
    pub symbols: List<TypedFunctionSymbolDeclaration<T>>,
}

#[derive(Debug, PartialEq)]
pub struct TypedModuleEntry<T> {
    pub id: u64,
    pub module: TypedModule<T>,
}

/// A program: its modules, and which of them holds the entry point.
#[derive(Debug, PartialEq)]
pub struct TypedProgram<T> {
    pub modules: List<TypedModuleEntry<T>>,
    pub main: u64,
}

/// The name of the entry point inside the main module.
pub const MAIN: u64 = 0;

} // verus!

verus! {

impl<T> UExpressionInner<T> {
    pub open spec fn spec_annotate(self, bitwidth: UBitwidth) -> UExpression<T> {
        UExpression { bitwidth, inner: self }
    }

    /// The expression with the width of its type.
    #[verifier::when_used_as_spec(spec_annotate)]
    pub fn annotate(self, bitwidth: UBitwidth) -> (r: UExpression<T>)
        ensures
            r == self.spec_annotate(bitwidth),
    {
        UExpression { bitwidth, inner: self }
    }
}

impl<T> UExpression<T> {
    pub open spec fn spec_from_value(v: u128) -> UExpressionInner<T> {
        UExpressionInner::Value(ValueExpression::new(v))
    }

    /// The literal `v`.
    #[verifier::when_used_as_spec(spec_from_value)]
    pub fn from_value(v: u128) -> (r: UExpressionInner<T>)
        ensures
            r == Self::spec_from_value(v),
    {
        UExpressionInner::Value(ValueExpression::new(v))
    }

    /// The literal `v` of 32 bits.
    pub fn from_u32(v: u32) -> (r: UExpression<T>)
        ensures
            r == Self::spec_from_value(v as u128).spec_annotate(UBitwidth::B32),
    {
        UExpression { bitwidth: UBitwidth::B32, inner: UExpression::from_value(v as u128) }
    }

    pub fn identifier(id: Identifier) -> (r: UExpressionInner<T>)
        ensures
            r == UExpressionInner::<T>::Identifier(IdentifierExpression::new(id)),
    {
        UExpressionInner::Identifier(IdentifierExpression::new(id))
    }
}

impl<T> FieldElementExpression<T> {
    pub open spec fn spec_from_value(v: T) -> FieldElementExpression<T> {
        FieldElementExpression::Number(ValueExpression::new(v))
    }

    /// The literal `v`.
    #[verifier::when_used_as_spec(spec_from_value)]
    pub fn from_value(v: T) -> (r: FieldElementExpression<T>)
        ensures
            r == Self::spec_from_value(v),
    {
        FieldElementExpression::Number(ValueExpression::new(v))
    }

    pub fn identifier(id: Identifier) -> (r: FieldElementExpression<T>)
        ensures
            r == FieldElementExpression::<T>::Identifier(IdentifierExpression::new(id)),
    {
        FieldElementExpression::Identifier(IdentifierExpression::new(id))
    }
}

impl<T> BooleanExpression<T> {
    /// `left > right`, written as `right < left`.
    pub fn field_gt(left: FieldElementExpression<T>, right: FieldElementExpression<T>) -> (r:
        BooleanExpression<T>)
        ensures
            r == BooleanExpression::FieldLt(BinaryExpression::new(right, left)),
    {
        BooleanExpression::FieldLt(BinaryExpression::new(right, left))
    }

    /// `left >= right`, written as `right <= left`.
    pub fn field_ge(left: FieldElementExpression<T>, right: FieldElementExpression<T>) -> (r:
        BooleanExpression<T>)
        ensures
            r == BooleanExpression::FieldLe(BinaryExpression::new(right, left)),
    {
        BooleanExpression::FieldLe(BinaryExpression::new(right, left))
    }

    pub open spec fn spec_from_value(v: bool) -> BooleanExpression<T> {
        BooleanExpression::Value(ValueExpression::new(v))
    }

    /// The literal `v`.
    #[verifier::when_used_as_spec(spec_from_value)]
    pub fn from_value(v: bool) -> (r: BooleanExpression<T>)
        ensures
            r == Self::spec_from_value(v),
    {
        BooleanExpression::Value(ValueExpression::new(v))
    }

    pub fn identifier(id: Identifier) -> (r: BooleanExpression<T>)
        ensures
            r == BooleanExpression::<T>::Identifier(IdentifierExpression::new(id)),
    {
        BooleanExpression::Identifier(IdentifierExpression::new(id))
    }
}

impl<T> ArrayExpressionInner<T> {
    pub open spec fn spec_annotate(self, ty: Type, size: u32) -> ArrayExpression<T> {
        ArrayExpression {
            ty: ArrayType { ty: Box::new(ty), size: ArraySize::Constant(size) },
            inner: self,
        }
    }

    /// The expression with the type of its elements and its length.
    #[verifier::when_used_as_spec(spec_annotate)]
    pub fn annotate(self, ty: Type, size: u32) -> (r: ArrayExpression<T>)
        ensures
            r == self.spec_annotate(ty, size),
    {
        ArrayExpression {
            ty: ArrayType { ty: Box::new(ty), size: ArraySize::Constant(size) },
            inner: self,
        }
    }
}

impl<T> ArrayExpression<T> {
    pub open spec fn spec_from_value(v: List<TypedExpressionOrSpread<T>>) -> ArrayExpressionInner<T> {
        ArrayExpressionInner::Value(ValueExpression::new(v))
    }

    /// The literal with the elements `v`.
    #[verifier::when_used_as_spec(spec_from_value)]
    pub fn from_value(v: List<TypedExpressionOrSpread<T>>) -> (r: ArrayExpressionInner<T>)
        ensures
            r == Self::spec_from_value(v),
    {
        ArrayExpressionInner::Value(ValueExpression::new(v))
    }

    pub fn identifier(id: Identifier) -> (r: ArrayExpressionInner<T>)
        ensures
            r == ArrayExpressionInner::<T>::Identifier(IdentifierExpression::new(id)),
    {
        ArrayExpressionInner::Identifier(IdentifierExpression::new(id))
    }
}

impl<T> TypedExpression<T> {
    /// The type of the expression.
    pub open spec fn spec_get_type(&self) -> Type {
        match *self {
            TypedExpression::Boolean(_) => Type::Boolean,
            TypedExpression::FieldElement(_) => Type::FieldElement,
            TypedExpression::Uint(u) => Type::Uint(u.bitwidth),
            TypedExpression::Array(a) => Type::Array(a.ty),
            TypedExpression::Struct(s) => Type::Struct(s.ty),
            TypedExpression::Tuple(t) => Type::Tuple(t.ty),
        }
    }

    #[verifier::when_used_as_spec(spec_get_type)]
    pub fn get_type(&self) -> (r: Type)
        ensures
            r == self.spec_get_type(),
    {
        match self {
            TypedExpression::Boolean(_) => Type::Boolean,
            TypedExpression::FieldElement(_) => Type::FieldElement,
            TypedExpression::Uint(u) => Type::Uint(u.bitwidth),
            TypedExpression::Array(a) => Type::Array(a.ty.clone()),
            TypedExpression::Struct(s) => Type::Struct(s.ty.clone()),
            TypedExpression::Tuple(t) => Type::Tuple(t.ty.clone()),
        }
    }
}

} // verus!

verus! {

/// The six families of expressions. The unsigned integers of each width are
/// a family of their own.
#[derive(Clone, Copy, PartialEq, Eq, Structural, Debug, Hash)]
pub enum Family {
    Boolean,
    FieldElement,
    Uint(UBitwidth),
    Array,
    Struct,
    Tuple,
}

impl<T> TypedExpression<T> {
    pub open spec fn spec_family(&self) -> Family {
        match *self {
            TypedExpression::Boolean(_) => Family::Boolean,
            TypedExpression::FieldElement(_) => Family::FieldElement,
            TypedExpression::Uint(u) => Family::Uint(u.bitwidth),
            TypedExpression::Array(_) => Family::Array,
            TypedExpression::Struct(_) => Family::Struct,
            TypedExpression::Tuple(_) => Family::Tuple,
        }
    }

    /// The family that the expression belongs to.
    #[verifier::when_used_as_spec(spec_family)]
    pub fn family(&self) -> (r: Family)
        ensures
            r == self.spec_family(),
    {
        match self {
            TypedExpression::Boolean(_) => Family::Boolean,
            TypedExpression::FieldElement(_) => Family::FieldElement,
            TypedExpression::Uint(u) => Family::Uint(u.bitwidth),
            TypedExpression::Array(_) => Family::Array,
            TypedExpression::Struct(_) => Family::Struct,
            TypedExpression::Tuple(_) => Family::Tuple,
        }
    }
}

/// A conditional, or what it was simplified to.
#[derive(Debug, PartialEq)]
pub enum ConditionalOrExpression<T, E> {
    Conditional(ConditionalExpression<T, E>),
    Expression(E),
}

/// A selection from an array, or what it was simplified to.
#[derive(Debug, PartialEq)]
pub enum SelectOrExpression<T> {
    Select(SelectExpression<T>),
    Expression(TypedExpression<T>),
}

/// A member of a struct, or what it was simplified to.
#[derive(Debug, PartialEq)]
pub enum MemberOrExpression<T> {
    Member(MemberExpression<T>),
    Expression(TypedExpression<T>),
}

/// An element of a tuple, or what it was simplified to.
#[derive(Debug, PartialEq)]
pub enum ElementOrExpression<T> {
    Element(ElementExpression<T>),
    Expression(TypedExpression<T>),
}

impl<T, E> ConditionalExpression<T, E> {
    pub open spec fn spec_new(
        condition: BooleanExpression<T>,
        consequence: E,
        alternative: E,
        kind: ConditionalKind,
    ) -> Self {
        ConditionalExpression {
            span: None,
            condition: Box::new(condition),
            consequence: Box::new(consequence),
            alternative: Box::new(alternative),
            kind,
        }
    }

    #[verifier::when_used_as_spec(spec_new)]
    pub fn new(
        condition: BooleanExpression<T>,
        consequence: E,
        alternative: E,
        kind: ConditionalKind,
    ) -> (r: Self)
        ensures
            r == Self::spec_new(condition, consequence, alternative, kind),
    {
        ConditionalExpression {
            span: None,
            condition: Box::new(condition),
            consequence: Box::new(consequence),
            alternative: Box::new(alternative),
            kind,
        }
    }
}

impl<T> SelectExpression<T> {
    pub open spec fn spec_new(array: ArrayExpression<T>, index: UExpression<T>) -> Self {
        SelectExpression { span: None, array: Box::new(array), index: Box::new(index) }
    }

    #[verifier::when_used_as_spec(spec_new)]
    pub fn new(array: ArrayExpression<T>, index: UExpression<T>) -> (r: Self)
        ensures
            r == Self::spec_new(array, index),
    {
        SelectExpression { span: None, array: Box::new(array), index: Box::new(index) }
    }
}

impl<T> MemberExpression<T> {
    pub open spec fn spec_new(struc: StructExpression<T>, id: u64) -> Self {
        MemberExpression { span: None, struc: Box::new(struc), id }
    }

    #[verifier::when_used_as_spec(spec_new)]
    pub fn new(struc: StructExpression<T>, id: u64) -> (r: Self)
        ensures
            r == Self::spec_new(struc, id),
    {
        MemberExpression { span: None, struc: Box::new(struc), id }
    }
}

impl<T> ElementExpression<T> {
    pub open spec fn spec_new(tuple: TupleExpression<T>, index: u32) -> Self {
        ElementExpression { span: None, tuple: Box::new(tuple), index }
    }

    #[verifier::when_used_as_spec(spec_new)]
    pub fn new(tuple: TupleExpression<T>, index: u32) -> (r: Self)
        ensures
            r == Self::spec_new(tuple, index),
    {
        ElementExpression { span: None, tuple: Box::new(tuple), index }
    }
}

} // verus!
