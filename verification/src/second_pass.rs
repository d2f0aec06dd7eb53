//! What the pass makes of its own output, statement by statement.

use crate::assignee::{assignee_type, folded_assignee, root};
use crate::constant::{canonical, expressions_are_constant, is_constant};
use crate::embed::{evaluated, only_generic};
use crate::error::Error;
use crate::field::Field;
use crate::folding::{folded_expression, Known};
use crate::list::List;
use crate::regular::{regular_boolean, regular_expression, regular_uint};
use crate::repetition::{nothing, regular_expressions};
use crate::statements::{
    assignment_error, definition, flushed, folded_call, folded_definition, folded_expressions,
    folded_statement, folded_statements, one, two, Step,
};
use crate::typed::{
    DefinitionRhs, EmbedCall, FlatEmbed, TypedAssignee, TypedExpression, TypedStatement, Variable,
};
use crate::types::{Type, UBitwidth};
use crate::witness::{lemma_definition_cases, lemma_statement_definition, lemma_stored_variable};
use vstd::prelude::*;

verus! {

/// The declared types of the variables, by the number of the variable.
pub type Declared = Map<u64, Type>;

/// Whether a value of type `found` can be assigned to a place of type
/// `declared`: not if both types are known in full and differ.
pub open spec fn fits(declared: Type, found: Type) -> bool {
    !(declared.is_concrete() && found.is_concrete() && declared != found)
}

/// Whether `v` has its declared type.
pub open spec fn is_declared(gamma: Declared, v: Variable) -> bool {
    gamma.contains_key(v.id.id) && gamma[v.id.id] == v.ty
}

/// Whether every known value can be assigned to the variable it is the
/// value of.
pub open spec fn typed<T: Field>(gamma: Declared, c: Known<T>) -> bool {
    forall|id: u64|
        c.contains_key(id) ==> gamma.contains_key(id) && fits(
            gamma[id],
            (#[trigger] c[id]).get_type(),
        )
}

/// The type of what the pass computes for a call, for the calls that it
/// computes.
pub open spec fn result_type(embed: FlatEmbed, generics: List<u32>) -> Option<Type> {
    match embed {
        FlatEmbed::U8FromBits => Some(Type::Uint(UBitwidth::B8)),
        FlatEmbed::U16FromBits => Some(Type::Uint(UBitwidth::B16)),
        FlatEmbed::U32FromBits => Some(Type::Uint(UBitwidth::B32)),
        FlatEmbed::U64FromBits => Some(Type::Uint(UBitwidth::B64)),
        FlatEmbed::U8ToBits => Some(bits_type(8)),
        FlatEmbed::U16ToBits => Some(bits_type(16)),
        FlatEmbed::U32ToBits => Some(bits_type(32)),
        FlatEmbed::U64ToBits => Some(bits_type(64)),
        FlatEmbed::Unpack => match only_generic(generics) {
            Some(n) => Some(bits_type(n)),
            None => None,
        },
        _ => None,
    }
}

/// The type of an array of `n` booleans.
pub open spec fn bits_type(n: u32) -> Type {
    Type::Array(
        crate::types::ArrayType {
            ty: Box::new(Type::Boolean),
            size: crate::types::ArraySize::Constant(n),
        },
    )
}

/// Whether a statement assigns to a whole variable of its declared type, if
/// it assigns, and its expressions are of the kind that
/// [`regular_expression`] describes.
pub open spec fn whole_statement<T: Field>(gamma: Declared, s: TypedStatement<T>) -> bool {
    match s {
        TypedStatement::Definition(TypedAssignee::Identifier(v), DefinitionRhs::Expression(e)) => {
            is_declared(gamma, v) && regular_expression(e)
        },
        TypedStatement::Definition(TypedAssignee::Identifier(v), DefinitionRhs::EmbedCall(call)) => {
            &&& is_declared(gamma, v)
            &&& regular_expressions(call.arguments)
            &&& result_type(call.embed, call.generics) matches Some(t) ==> fits(v.ty, t)
        },
        TypedStatement::Definition(_, _) => false,
        TypedStatement::Assertion(e, _) => regular_boolean(e),
        TypedStatement::For(_, from, to, _) => regular_uint(from) && regular_uint(to),
        TypedStatement::Return(e) => regular_expression(e),
        TypedStatement::Log(_, l) => regular_expressions(l),
        TypedStatement::PushCallLog(_) => true,
        TypedStatement::PopCallLog => true,
    }
}

pub open spec fn whole_statements<T: Field>(gamma: Declared, l: List<TypedStatement<T>>) -> bool
    decreases l,
{
    match l {
        List::Nil => true,
        List::Cons(n) => whole_statement(gamma, n.head) && whole_statements(gamma, n.tail),
    }
}

/// Assigning to a variable fails exactly where the type of the value does
/// not fit the type of the variable.
pub proof fn lemma_assignment_fits<T: Field>(v: Variable, e: TypedExpression<T>)
    ensures
        assignment_error(TypedAssignee::<T>::Identifier(v), e) is None <==> fits(
            v.ty,
            e.get_type(),
        ),
{
    let a = TypedAssignee::<T>::Identifier(v);
    assert(assignee_type(a) == Some(v.ty));
}

/// A list followed by nothing is the list.
pub proof fn lemma_concat_nil<A>(l: List<A>)
    ensures
        l.spec_concat(List::Nil) == l,
    decreases l,
{
    match l {
        List::Nil => {},
        List::Cons(n) => {
            lemma_concat_nil(n.tail);
        },
    }
}

/// Concatenation of lists is associative.
pub proof fn lemma_concat_associative<A>(a: List<A>, b: List<A>, c: List<A>)
    ensures
        a.spec_concat(b).spec_concat(c) == a.spec_concat(b.spec_concat(c)),
    decreases a,
{
    match a {
        List::Nil => {},
        List::Cons(n) => {
            lemma_concat_associative(n.tail, b, c);
        },
    }
}

/// The pass on two lists of statements, one after the other.
pub open spec fn folded_in_turn<T: Field>(
    c: Known<T>,
    a: List<TypedStatement<T>>,
    b: List<TypedStatement<T>>,
) -> Result<Step<T>, Error> {
    match folded_statements(c, a) {
        Err(e) => Err(e),
        Ok((c1, first)) => match folded_statements(c1, b) {
            Err(e) => Err(e),
            Ok((c2, rest)) => Ok((c2, first.spec_concat(rest))),
        },
    }
}

/// The pass on a list of statements followed by another is the pass on the
/// one and then on the other.
pub proof fn lemma_folded_concat<T: Field>(
    c: Known<T>,
    a: List<TypedStatement<T>>,
    b: List<TypedStatement<T>>,
)
    ensures
        folded_statements(c, a.spec_concat(b)) == folded_in_turn(c, a, b),
    decreases a,
{
    match a {
        List::Nil => {
            match folded_statements(c, b) {
                Ok((c2, rest)) => {
                    assert(List::<TypedStatement<T>>::Nil.spec_concat(rest) == rest);
                },
                Err(_) => {},
            }
        },
        List::Cons(n) => {
            assert(a.spec_concat(b) == List::spec_cons(n.head, n.tail.spec_concat(b)));
            match folded_statement(c, n.head) {
                Err(_) => {},
                Ok((c1, first)) => {
                    lemma_folded_concat(c1, n.tail, b);
                    match folded_statements(c1, n.tail) {
                        Err(_) => {},
                        Ok((c2, middle)) => {
                            match folded_statements(c2, b) {
                                Err(_) => {},
                                Ok((c3, last)) => {
                                    lemma_concat_associative(first, middle, last);
                                },
                            }
                        },
                    }
                },
            }
        },
    }
}

/// The pass on one statement.
pub proof fn lemma_folded_one<T: Field>(c: Known<T>, s: TypedStatement<T>)
    ensures
        folded_statements(c, one(s)) == folded_statement(c, s),
{
    match folded_statement(c, s) {
        Ok((c1, out)) => {
            assert(folded_statements(c1, List::<TypedStatement<T>>::Nil) == Ok::<Step<T>, Error>(
                (c1, List::Nil),
            ));
            lemma_concat_nil(out);
        },
        Err(_) => {},
    }
}

/// The pass on two statements.
pub proof fn lemma_folded_two<T: Field>(c: Known<T>, a: TypedStatement<T>, b: TypedStatement<T>)
    ensures
        folded_statements(c, two(a, b)) == (match folded_statement(c, a) {
            Err(e) => Err(e),
            Ok((c1, first)) => match folded_statement(c1, b) {
                Err(e) => Err(e),
                Ok((c2, rest)) => Ok((c2, first.spec_concat(rest))),
            },
        }),
{
    assert(two(a, b) == List::spec_cons(a, one(b)));
    match folded_statement(c, a) {
        Ok((c1, first)) => {
            lemma_folded_one(c1, b);
        },
        Err(_) => {},
    }
}

/// The definition of a variable by `e`.
pub open spec fn defining<T: Field>(v: Variable, e: TypedExpression<T>) -> TypedStatement<T> {
    TypedStatement::Definition(TypedAssignee::Identifier(v), DefinitionRhs::Expression(e))
}

/// The definition of a variable by a call.
pub open spec fn calling<T: Field>(v: Variable, call: EmbedCall<T>) -> TypedStatement<T> {
    TypedStatement::Definition(TypedAssignee::Identifier(v), DefinitionRhs::EmbedCall(call))
}

/// What the pass makes of an emitted definition by an expression that is no
/// constant: it emits it again.
pub proof fn lemma_second_definition<T: Field>(d: Known<T>, v: Variable, e: TypedExpression<T>)
    requires
        folded_expression(d, e) == Ok::<TypedExpression<T>, Error>(e),
        !is_constant(e),
        fits(v.ty, e.get_type()),
    ensures
        folded_statement(d, defining(v, e)) == Ok::<Step<T>, Error>(
            flushed(d, v, defining(v, e)),
        ),
{
    let a = TypedAssignee::<T>::Identifier(v);
    lemma_statement_definition(d, v, e);
    lemma_assignment_fits(v, e);
    assert(folded_statement(d, defining(v, e)) == folded_definition(d, a, e));
    assert(folded_definition(d, a, e) is Ok);
    lemma_definition_cases(d, a, e);
    assert(root(a) == v);
}

/// What the pass makes of the definition of a variable by a constant in
/// canonical form: it records the constant.
pub proof fn lemma_second_known<T: Field>(d: Known<T>, v: Variable, k: TypedExpression<T>)
    requires
        is_constant(k),
        folded_expression(d, k) == Ok::<TypedExpression<T>, Error>(k),
        canonical(k) == k,
        fits(v.ty, k.get_type()),
    ensures
        folded_statement(d, definition(v, k)) == Ok::<Step<T>, Error>(
            (d.insert(v.id.id, k), List::Nil),
        ),
{
    let a = TypedAssignee::<T>::Identifier(v);
    lemma_statement_definition(d, v, k);
    lemma_assignment_fits(v, k);
    assert(definition(v, k) == defining(v, k));
    assert(folded_statement(d, definition(v, k)) == folded_definition(d, a, k));
    assert(folded_definition(d, a, k) is Ok);
    lemma_definition_cases(d, a, k);
    lemma_stored_variable(d, v, k, defining(v, k));
}

/// Whether the pass leaves a call with these arguments to be carried out
/// when the program runs.
pub open spec fn left_alone<T: Field>(call: EmbedCall<T>) -> bool {
    !expressions_are_constant(call.arguments) || evaluated(call) == Ok::<
        Option<TypedExpression<T>>,
        Error,
    >(None)
}

/// What the pass makes of an emitted call: it emits it again.
pub proof fn lemma_second_call<T: Field>(d: Known<T>, v: Variable, call: EmbedCall<T>)
    requires
        folded_expressions(d, call.arguments) == Ok::<List<TypedExpression<T>>, Error>(
            call.arguments,
        ),
        left_alone(call),
    ensures
        folded_statement(d, calling(v, call)) == Ok::<Step<T>, Error>(
            flushed(d, v, calling(v, call)),
        ),
{
    let a = TypedAssignee::<T>::Identifier(v);
    assert(folded_assignee(d, a) == Ok::<TypedAssignee<T>, Error>(a));
    let again = EmbedCall { embed: call.embed, generics: call.generics, arguments: call.arguments };
    assert(again == call);
    assert(folded_statement(d, calling(v, call)) == folded_call(d, a, call));
    assert(root(a) == v);
}

/// Flushing a variable that is not known emits the statement alone.
pub proof fn lemma_flushed_unknown<T: Field>(d: Known<T>, v: Variable, s: TypedStatement<T>)
    requires
        !d.contains_key(v.id.id),
    ensures
        flushed(d, v, s) == (d, one(s)),
{
}

/// Flushing the only known variable emits its definition and the statement,
/// and leaves nothing known.
pub proof fn lemma_flushed_only<T: Field>(v: Variable, k: TypedExpression<T>, s: TypedStatement<T>)
    ensures
        flushed(nothing::<T>().insert(v.id.id, k), v, s) == (
            nothing::<T>(),
            two(definition(v, k), s),
        ),
{
    let d = nothing::<T>().insert(v.id.id, k);
    assert(d.remove(v.id.id) =~= nothing::<T>());
}

/// A statement that the pass emits again as it is, is a list that the pass
/// emits again as it is.
pub proof fn lemma_group_single<T: Field>(s: TypedStatement<T>)
    requires
        folded_statement(nothing::<T>(), s) == Ok::<Step<T>, Error>((nothing(), one(s))),
    ensures
        folded_statements(nothing::<T>(), one(s)) == Ok::<Step<T>, Error>((nothing(), one(s))),
{
    lemma_folded_one(nothing::<T>(), s);
}

/// The definition of a known value and the statement that made the pass
/// emit it are a list that the pass emits again as it is.
pub proof fn lemma_group_pair<T: Field>(v: Variable, k: TypedExpression<T>, s: TypedStatement<T>)
    requires
        folded_statement(nothing::<T>(), definition(v, k)) == Ok::<Step<T>, Error>(
            (nothing::<T>().insert(v.id.id, k), List::Nil),
        ),
        folded_statement(nothing::<T>().insert(v.id.id, k), s) == Ok::<Step<T>, Error>(
            flushed(nothing::<T>().insert(v.id.id, k), v, s),
        ),
    ensures
        folded_statements(nothing::<T>(), two(definition(v, k), s)) == Ok::<Step<T>, Error>(
            (nothing(), two(definition(v, k), s)),
        ),
{
    lemma_folded_two(nothing::<T>(), definition(v, k), s);
    lemma_flushed_only(v, k, s);
    let out = two(definition(v, k), s);
    assert(List::<TypedStatement<T>>::Nil.spec_concat(out) == out);
}

} // verus!
