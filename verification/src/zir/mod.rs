//! ZIR: a program as one function over field elements, booleans and
//! unsigned integers, with every type known and no arrays or structs left.
pub mod cloning;
pub mod display;
pub mod identifier;
pub mod indentation;
pub mod parameter;
pub mod properties;
pub mod types;
pub mod uint;
pub mod variable;

pub use self::identifier::{Identifier, SourceIdentifier};
pub use self::parameter::Parameter;
pub use self::types::{Signature, Type, UBitwidth};
pub use self::uint::{UExpression, UExpressionInner};
pub use self::variable::Variable;

use crate::common::{FlatEmbed, FormatString, SourceMetadata};
use crate::typed::ConcreteType;
use core::marker::PhantomData;
use vstd::prelude::*;

verus! {

/// A program: its main function.
#[derive(Debug, PartialEq, Eq)]
pub struct ZirProgram<'ast, T> {
    pub main: ZirFunction<'ast, T>,
}

/// A function: its parameters, the statements of its body, and its signature.
#[derive(Debug, PartialEq, Eq, Hash)]
pub struct ZirFunction<'ast, T> {
    pub arguments: Vec<Parameter<'ast>>,
    pub statements: Vec<ZirStatement<'ast, T>>,
    pub signature: Signature,
}

/// The variable that a definition assigns.
pub type ZirAssignee<'ast> = Variable<'ast>;

/// Why an assertion fails at run time.
#[derive(Debug, PartialEq, Eq, Hash)]
pub enum RuntimeError {
    SourceAssertion(SourceMetadata),
    SelectRangeCheck,
    DivisionByZero,
    IncompleteDynamicRange,
}

impl Clone for RuntimeError {
    /// An equal error.
    fn clone(&self) -> (r: Self)
        ensures
            r == *self,
    {
        match self {
            RuntimeError::SourceAssertion(m) => RuntimeError::SourceAssertion(m.clone()),
            RuntimeError::SelectRangeCheck => RuntimeError::SelectRangeCheck,
            RuntimeError::DivisionByZero => RuntimeError::DivisionByZero,
            RuntimeError::IncompleteDynamicRange => RuntimeError::IncompleteDynamicRange,
        }
    }
}

impl RuntimeError {
    /// A source assertion at the default source location.
    pub fn mock() -> (r: Self)
        ensures
            r matches RuntimeError::SourceAssertion(m) && m.file@ == Seq::<char>::empty()
                && m.position.line == 0 && m.position.col == 0 && m.message is None,
    {
        RuntimeError::SourceAssertion(SourceMetadata::default())
    }
}

/// A statement of an assembly block: a witness assignment computed by a
/// function, or a constraint between two field expressions.
#[derive(Debug, PartialEq, Eq, Hash)]
pub enum ZirAssemblyStatement<'ast, T> {
    Assignment(Vec<ZirAssignee<'ast>>, ZirFunction<'ast, T>),
    Constraint(FieldElementExpression<'ast, T>, FieldElementExpression<'ast, T>, SourceMetadata),
}

/// A statement of a `ZirFunction`.
#[derive(Debug, PartialEq, Eq, Hash)]
pub enum ZirStatement<'ast, T> {
    Return(Vec<ZirExpression<'ast, T>>),
    Definition(ZirAssignee<'ast>, ZirExpression<'ast, T>),
    IfElse(BooleanExpression<'ast, T>, Vec<ZirStatement<'ast, T>>, Vec<ZirStatement<'ast, T>>),
    Assertion(BooleanExpression<'ast, T>, RuntimeError),
    MultipleDefinition(Vec<ZirAssignee<'ast>>, ZirExpressionList<'ast, T>),
    Log(FormatString, Vec<(ConcreteType, Vec<ZirExpression<'ast, T>>)>),
    Assembly(Vec<ZirAssemblyStatement<'ast, T>>),
}

/// Values that have a ZIR type.
pub trait Typed {
    /// The type of the value.
    spec fn type_of(&self) -> Type;

    /// Computes the type of the value.
    fn get_type(&self) -> (t: Type)
        ensures
            t == self.type_of(),
    ;
}

/// A variable used as an expression of the kind `E`.
#[derive(Debug, PartialEq, Eq, Hash)]
pub struct IdentifierExpression<'ast, E> {
    pub id: Identifier<'ast>,
    pub ty: PhantomData<E>,
}

impl<'ast, E> IdentifierExpression<'ast, E> {
    /// The expression that reads the variable `id`.
    pub fn new(id: Identifier<'ast>) -> (r: Self)
        ensures
            r.id == id,
    {
        IdentifierExpression { id, ty: PhantomData }
    }
}

/// `condition ? consequence : alternative`.
#[derive(Debug, PartialEq, Eq, Hash)]
pub struct ConditionalExpression<'ast, T, E> {
    pub condition: Box<BooleanExpression<'ast, T>>,
    pub consequence: Box<E>,
    pub alternative: Box<E>,
}

impl<'ast, T, E> ConditionalExpression<'ast, T, E> {
    /// The conditional of the three given expressions.
    pub fn new(condition: BooleanExpression<'ast, T>, consequence: E, alternative: E) -> (r: Self)
        ensures
            *r.condition == condition,
            *r.consequence == consequence,
            *r.alternative == alternative,
    {
        ConditionalExpression {
            condition: Box::new(condition),
            consequence: Box::new(consequence),
            alternative: Box::new(alternative),
        }
    }
}

/// The element at a computed index of an array of expressions.
#[derive(Debug, PartialEq, Eq, Hash)]
pub struct SelectExpression<'ast, T, E> {
    pub array: Vec<E>,
    pub index: Box<UExpression<'ast, T>>,
}

impl<'ast, T, E> SelectExpression<'ast, T, E> {
    /// The selection of `array` at `index`.
    pub fn new(array: Vec<E>, index: UExpression<'ast, T>) -> (r: Self)
        ensures
            r.array@ == array@,
            *r.index == index,
    {
        SelectExpression { array, index: Box::new(index) }
    }
}

/// A typed expression.
#[derive(Debug, PartialEq, Eq, Hash)]
pub enum ZirExpression<'ast, T> {
    Boolean(BooleanExpression<'ast, T>),
    FieldElement(FieldElementExpression<'ast, T>),
    Uint(UExpression<'ast, T>),
}

impl<'ast, T> From<BooleanExpression<'ast, T>> for ZirExpression<'ast, T> {
    /// The boolean expression, as a typed expression.
    fn from(e: BooleanExpression<'ast, T>) -> (r: ZirExpression<'ast, T>) {
        ZirExpression::Boolean(e)
    }
}

impl<'ast, T> vstd::std_specs::convert::FromSpecImpl<BooleanExpression<'ast, T>> for ZirExpression<'ast, T> {
    open spec fn obeys_from_spec() -> bool {
        true
    }

    open spec fn from_spec(e: BooleanExpression<'ast, T>) -> Self {
        ZirExpression::Boolean(e)
    }
}

impl<'ast, T> From<FieldElementExpression<'ast, T>> for ZirExpression<'ast, T> {
    /// The field expression, as a typed expression.
    fn from(e: FieldElementExpression<'ast, T>) -> (r: ZirExpression<'ast, T>) {
        ZirExpression::FieldElement(e)
    }
}

impl<'ast, T> vstd::std_specs::convert::FromSpecImpl<FieldElementExpression<'ast, T>> for ZirExpression<'ast, T> {
    open spec fn obeys_from_spec() -> bool {
        true
    }

    open spec fn from_spec(e: FieldElementExpression<'ast, T>) -> Self {
        ZirExpression::FieldElement(e)
    }
}

impl<'ast, T> From<UExpression<'ast, T>> for ZirExpression<'ast, T> {
    /// The unsigned integer expression, as a typed expression.
    fn from(e: UExpression<'ast, T>) -> (r: ZirExpression<'ast, T>) {
        ZirExpression::Uint(e)
    }
}

impl<'ast, T> vstd::std_specs::convert::FromSpecImpl<UExpression<'ast, T>> for ZirExpression<'ast, T> {
    open spec fn obeys_from_spec() -> bool {
        true
    }

    open spec fn from_spec(e: UExpression<'ast, T>) -> Self {
        ZirExpression::Uint(e)
    }
}

impl<'ast, T> Typed for ZirExpression<'ast, T> {
    /// The type of the wrapped expression.
    open spec fn type_of(&self) -> Type {
        match self {
            ZirExpression::Boolean(e) => e.type_of(),
            ZirExpression::FieldElement(e) => e.type_of(),
            ZirExpression::Uint(e) => e.type_of(),
        }
    }

    fn get_type(&self) -> (t: Type) {
        match self {
            ZirExpression::Boolean(e) => e.get_type(),
            ZirExpression::FieldElement(e) => e.get_type(),
            ZirExpression::Uint(e) => e.get_type(),
        }
    }
}

impl<'ast, T> Typed for FieldElementExpression<'ast, T> {
    open spec fn type_of(&self) -> Type {
        Type::FieldElement
    }

    fn get_type(&self) -> (t: Type) {
        Type::FieldElement
    }
}

impl<'ast, T> Typed for UExpression<'ast, T> {
    /// An unsigned integer type of the expression's width.
    open spec fn type_of(&self) -> Type {
        Type::Uint(self.bitwidth)
    }

    fn get_type(&self) -> (t: Type) {
        Type::Uint(self.bitwidth)
    }
}

impl<'ast, T> Typed for BooleanExpression<'ast, T> {
    open spec fn type_of(&self) -> Type {
        Type::Boolean
    }

    fn get_type(&self) -> (t: Type) {
        Type::Boolean
    }
}

/// Values that have a list of types.
pub trait MultiTyped {
    /// The types of the value.
    fn get_types(&self) -> &Vec<Type>;
}

/// A call that returns several values.
#[derive(Debug, PartialEq, Eq, Hash)]
pub enum ZirExpressionList<'ast, T> {
    EmbedCall(FlatEmbed, Vec<u32>, Vec<ZirExpression<'ast, T>>),
}

/// An expression of type `field`.
#[derive(Debug, PartialEq, Eq, Hash)]
pub enum FieldElementExpression<'ast, T> {
    Number(T),
    Identifier(IdentifierExpression<'ast, FieldElementExpression<'ast, T>>),
    Select(SelectExpression<'ast, T, FieldElementExpression<'ast, T>>),
    Add(Box<FieldElementExpression<'ast, T>>, Box<FieldElementExpression<'ast, T>>),
    Sub(Box<FieldElementExpression<'ast, T>>, Box<FieldElementExpression<'ast, T>>),
    Mult(Box<FieldElementExpression<'ast, T>>, Box<FieldElementExpression<'ast, T>>),
    Div(Box<FieldElementExpression<'ast, T>>, Box<FieldElementExpression<'ast, T>>),
    Pow(Box<FieldElementExpression<'ast, T>>, Box<UExpression<'ast, T>>),
    And(Box<FieldElementExpression<'ast, T>>, Box<FieldElementExpression<'ast, T>>),
    Or(Box<FieldElementExpression<'ast, T>>, Box<FieldElementExpression<'ast, T>>),
    Xor(Box<FieldElementExpression<'ast, T>>, Box<FieldElementExpression<'ast, T>>),
    LeftShift(Box<FieldElementExpression<'ast, T>>, Box<UExpression<'ast, T>>),
    RightShift(Box<FieldElementExpression<'ast, T>>, Box<UExpression<'ast, T>>),
    Conditional(ConditionalExpression<'ast, T, FieldElementExpression<'ast, T>>),
}

/// A field expression is linear when it is a number, a variable, a sum or
/// difference of linear expressions, or a product with a number as one factor.
pub open spec fn linear<'ast, T>(e: FieldElementExpression<'ast, T>) -> bool
    decreases e,
{
    match e {
        FieldElementExpression::Number(_) => true,
        FieldElementExpression::Identifier(_) => true,
        FieldElementExpression::Add(left, right) => linear(*left) && linear(*right),
        FieldElementExpression::Sub(left, right) => linear(*left) && linear(*right),
        FieldElementExpression::Mult(left, right) => *left is Number || *right is Number,
        _ => false,
    }
}

impl<'ast, T> FieldElementExpression<'ast, T> {
    /// Whether the expression is linear (see `linear`).
    pub fn is_linear(&self) -> (b: bool)
        ensures
            b == linear(*self),
        decreases self,
    {
        match self {
            FieldElementExpression::Number(_) => true,
            FieldElementExpression::Identifier(_) => true,
            FieldElementExpression::Add(left, right) => left.is_linear() && right.is_linear(),
            FieldElementExpression::Sub(left, right) => left.is_linear() && right.is_linear(),
            FieldElementExpression::Mult(left, right) => {
                let l = matches!(**left, FieldElementExpression::Number(_));
                let r = matches!(**right, FieldElementExpression::Number(_));
                l || r
            },
            _ => false,
        }
    }
}

/// An expression of type `bool`.
#[derive(Debug, PartialEq, Eq, Hash)]
pub enum BooleanExpression<'ast, T> {
    Value(bool),
    Identifier(IdentifierExpression<'ast, BooleanExpression<'ast, T>>),
    Select(SelectExpression<'ast, T, BooleanExpression<'ast, T>>),
    FieldLt(Box<FieldElementExpression<'ast, T>>, Box<FieldElementExpression<'ast, T>>),
    FieldLe(Box<FieldElementExpression<'ast, T>>, Box<FieldElementExpression<'ast, T>>),
    FieldEq(Box<FieldElementExpression<'ast, T>>, Box<FieldElementExpression<'ast, T>>),
    UintLt(Box<UExpression<'ast, T>>, Box<UExpression<'ast, T>>),
    UintLe(Box<UExpression<'ast, T>>, Box<UExpression<'ast, T>>),
    UintEq(Box<UExpression<'ast, T>>, Box<UExpression<'ast, T>>),
    BoolEq(Box<BooleanExpression<'ast, T>>, Box<BooleanExpression<'ast, T>>),
    Or(Box<BooleanExpression<'ast, T>>, Box<BooleanExpression<'ast, T>>),
    And(Box<BooleanExpression<'ast, T>>, Box<BooleanExpression<'ast, T>>),
    Not(Box<BooleanExpression<'ast, T>>),
    Conditional(ConditionalExpression<'ast, T, BooleanExpression<'ast, T>>),
}

/// The conjuncts of `e`, in the order the conjunction iterator yields them:
/// for `left && right`, those of `right` and then those of `left`; any other
/// expression is its own only conjunct.
pub open spec fn conjuncts<'ast, T>(e: BooleanExpression<'ast, T>) -> Seq<BooleanExpression<'ast, T>>
    decreases e,
{
    match e {
        BooleanExpression::And(left, right) => conjuncts(*right) + conjuncts(*left),
        _ => seq![e],
    }
}

/// What the conjunction iterator has still to yield from a stack of
/// expressions: the conjuncts of the top of the stack (its last element)
/// first, then those of the rest.
pub open spec fn pending_conjuncts<'ast, T>(stack: Seq<BooleanExpression<'ast, T>>) -> Seq<
    BooleanExpression<'ast, T>,
>
    decreases stack.len(),
{
    if stack.len() == 0 {
        Seq::empty()
    } else {
        conjuncts(stack.last()) + pending_conjuncts(stack.drop_last())
    }
}

/// The number of nodes of `e` that the iterator visits: its `&&` nodes and
/// its conjuncts.
pub open spec fn and_nodes<'ast, T>(e: BooleanExpression<'ast, T>) -> nat
    decreases e,
{
    match e {
        BooleanExpression::And(left, right) => 1 + and_nodes(*left) + and_nodes(*right),
        _ => 1,
    }
}

/// The nodes that the iterator has still to visit in a stack.
pub open spec fn stack_nodes<'ast, T>(stack: Seq<BooleanExpression<'ast, T>>) -> nat
    decreases stack.len(),
{
    if stack.len() == 0 {
        0
    } else {
        and_nodes(stack.last()) + stack_nodes(stack.drop_last())
    }
}

proof fn lemma_stack_push<'ast, T>(stack: Seq<BooleanExpression<'ast, T>>, e: BooleanExpression<'ast, T>)
    ensures
        pending_conjuncts(stack.push(e)) == conjuncts(e) + pending_conjuncts(stack),
        stack_nodes(stack.push(e)) == and_nodes(e) + stack_nodes(stack),
{
    assert(stack.push(e).drop_last() == stack);
}

/// An iterator over the conjuncts of a boolean expression.
pub struct ConjunctionIterator<T> {
    current: Vec<T>,
}

impl<'ast, T> ConjunctionIterator<BooleanExpression<'ast, T>> {
    /// The expressions that the iterator has still to yield, in order.
    pub closed spec fn remaining(&self) -> Seq<BooleanExpression<'ast, T>> {
        pending_conjuncts(self.current@)
    }

    /// Yields the next conjunct, or `None` when all have been yielded.
    pub fn next(&mut self) -> (r: Option<BooleanExpression<'ast, T>>)
        ensures
            old(self).remaining().len() == 0 ==> r is None && final(self).remaining() == old(
                self,
            ).remaining(),
            old(self).remaining().len() > 0 ==> r == Some(old(self).remaining()[0])
                && final(self).remaining() == old(self).remaining().drop_first(),
    {
        let ghost start = pending_conjuncts(self.current@);
        loop
            invariant
                start == old(self).remaining(),
                pending_conjuncts(self.current@) == start,
            decreases stack_nodes(self.current@),
        {
            let ghost before = self.current@;
            match self.current.pop() {
                None => {
                    return None;
                },
                Some(n) => {
                    proof {
                        lemma_stack_push(self.current@, n);
                        assert(before == self.current@.push(n));
                    }
                    match n {
                        BooleanExpression::And(left, right) => {
                            let ghost rest = self.current@;
                            self.current.push(*left);
                            proof {
                                lemma_stack_push(rest, *left);
                            }
                            let ghost with_left = self.current@;
                            self.current.push(*right);
                            proof {
                                lemma_stack_push(with_left, *right);
                            }
                        },
                        other => {
                            return Some(other);
                        },
                    }
                },
            }
        }
    }
}

impl<'ast, T> BooleanExpression<'ast, T> {
    /// An iterator over the conjuncts of the expression.
    pub fn into_conjunction_iterator(self) -> (it: ConjunctionIterator<Self>)
        ensures
            it.remaining() == conjuncts(self),
    {
        let it = ConjunctionIterator { current: vec![self] };
        proof {
            lemma_stack_push(Seq::empty(), self);
            assert(it.current@ == Seq::<BooleanExpression<'ast, T>>::empty().push(self));
        }
        it
    }
}

/// No conjunct of an expression is itself a conjunction, and there is at
/// least one.
pub proof fn lemma_conjuncts_are_not_conjunctions<'ast, T>(e: BooleanExpression<'ast, T>)
    ensures
        conjuncts(e).len() >= 1,
        forall|i: int| 0 <= i < conjuncts(e).len() ==> !(#[trigger] conjuncts(e)[i] is And),
    decreases e,
{
    match e {
        BooleanExpression::And(left, right) => {
            lemma_conjuncts_are_not_conjunctions(*left);
            lemma_conjuncts_are_not_conjunctions(*right);
            let s = conjuncts(*right) + conjuncts(*left);
            assert forall|i: int| 0 <= i < s.len() implies !(#[trigger] s[i] is And) by {
                if i < conjuncts(*right).len() {
                    assert(s[i] == conjuncts(*right)[i]);
                } else {
                    assert(s[i] == conjuncts(*left)[i - conjuncts(*right).len()]);
                }
            }
        },
        _ => {},
    }
}

impl<'ast, T> FieldElementExpression<'ast, T> {
    /// The field expression inside a typed expression of type `field`.
    pub fn from(e: ZirExpression<'ast, T>) -> (r: FieldElementExpression<'ast, T>)
        requires
            e is FieldElement,
        ensures
            e == ZirExpression::FieldElement(r),
    {
        match e {
            ZirExpression::FieldElement(e) => e,
            _ => vstd::pervasive::unreached(),
        }
    }
}

impl<'ast, T> BooleanExpression<'ast, T> {
    /// The boolean expression inside a typed expression of type `bool`.
    pub fn from(e: ZirExpression<'ast, T>) -> (r: BooleanExpression<'ast, T>)
        requires
            e is Boolean,
        ensures
            e == ZirExpression::Boolean(r),
    {
        match e {
            ZirExpression::Boolean(e) => e,
            _ => vstd::pervasive::unreached(),
        }
    }
}

impl<'ast, T> UExpression<'ast, T> {
    /// The integer expression inside a typed expression of an integer type.
    pub fn from(e: ZirExpression<'ast, T>) -> (r: UExpression<'ast, T>)
        requires
            e is Uint,
        ensures
            e == ZirExpression::Uint(r),
    {
        match e {
            ZirExpression::Uint(e) => e,
            _ => vstd::pervasive::unreached(),
        }
    }
}

/// What the three kinds of expressions have in common: a type annotation
/// and a form (the inner expression).
pub trait Expr<'ast, T>: Sized {
    type Inner;

    type Ty: Clone + IntoType;

    /// The type annotation.
    spec fn ty_of(&self) -> Self::Ty;

    /// The form of the expression.
    spec fn inner_of(&self) -> Self::Inner;

    /// The expression with its form replaced by `inner`.
    spec fn with_inner(&self, inner: Self::Inner) -> Self;

    /// The type annotation.
    fn ty(&self) -> (r: &Self::Ty)
        ensures
            *r == self.ty_of(),
    ;

    /// The form of the expression, by value.
    fn into_inner(self) -> (r: Self::Inner)
        ensures
            r == self.inner_of(),
    ;

    /// The form of the expression, by reference.
    fn as_inner(&self) -> (r: &Self::Inner)
        ensures
            *r == self.inner_of(),
    ;

    /// The form of the expression, to change in place.
    fn as_inner_mut(&mut self) -> (r: &mut Self::Inner)
        ensures
            *r == old(self).inner_of(),
            *final(self) == old(self).with_inner(*final(r)),
    ;
}

impl<'ast, T> Expr<'ast, T> for FieldElementExpression<'ast, T> {
    type Inner = Self;

    type Ty = Type;

    open spec fn ty_of(&self) -> Type {
        Type::FieldElement
    }

    open spec fn inner_of(&self) -> Self {
        *self
    }

    open spec fn with_inner(&self, inner: Self) -> Self {
        inner
    }

    fn ty(&self) -> (r: &Type) {
        &Type::FieldElement
    }

    fn into_inner(self) -> (r: Self) {
        self
    }

    fn as_inner(&self) -> (r: &Self) {
        self
    }

    fn as_inner_mut(&mut self) -> (r: &mut Self) {
        self
    }
}

impl<'ast, T> Expr<'ast, T> for BooleanExpression<'ast, T> {
    type Inner = Self;

    type Ty = Type;

    open spec fn ty_of(&self) -> Type {
        Type::Boolean
    }

    open spec fn inner_of(&self) -> Self {
        *self
    }

    open spec fn with_inner(&self, inner: Self) -> Self {
        inner
    }

    fn ty(&self) -> (r: &Type) {
        &Type::Boolean
    }

    fn into_inner(self) -> (r: Self) {
        self
    }

    fn as_inner(&self) -> (r: &Self) {
        self
    }

    fn as_inner_mut(&mut self) -> (r: &mut Self) {
        self
    }
}

impl<'ast, T> Expr<'ast, T> for UExpression<'ast, T> {
    type Inner = UExpressionInner<'ast, T>;

    type Ty = UBitwidth;

    open spec fn ty_of(&self) -> UBitwidth {
        self.bitwidth
    }

    open spec fn inner_of(&self) -> UExpressionInner<'ast, T> {
        self.inner
    }

    open spec fn with_inner(&self, inner: UExpressionInner<'ast, T>) -> Self {
        UExpression { bitwidth: self.bitwidth, inner }
    }

    fn ty(&self) -> (r: &UBitwidth) {
        &self.bitwidth
    }

    fn into_inner(self) -> (r: UExpressionInner<'ast, T>) {
        self.inner
    }

    fn as_inner(&self) -> (r: &UExpressionInner<'ast, T>) {
        &self.inner
    }

    fn as_inner_mut(&mut self) -> (r: &mut UExpressionInner<'ast, T>) {
        &mut self.inner
    }
}

/// Expressions that can read a variable.
pub trait Id<'ast, T>: Expr<'ast, T> {
    /// The form of the expression that reads the variable `id`.
    spec fn identifier_of(id: Identifier<'ast>) -> Self::Inner;

    /// Builds the form of the expression that reads the variable `id`.
    fn identifier(id: Identifier<'ast>) -> (r: Self::Inner)
        ensures
            r == Self::identifier_of(id),
    ;
}

impl<'ast, T> Id<'ast, T> for FieldElementExpression<'ast, T> {
    open spec fn identifier_of(id: Identifier<'ast>) -> Self {
        FieldElementExpression::Identifier(IdentifierExpression { id, ty: PhantomData })
    }

    fn identifier(id: Identifier<'ast>) -> (r: Self) {
        FieldElementExpression::Identifier(IdentifierExpression::new(id))
    }
}

impl<'ast, T> Id<'ast, T> for BooleanExpression<'ast, T> {
    open spec fn identifier_of(id: Identifier<'ast>) -> Self {
        BooleanExpression::Identifier(IdentifierExpression { id, ty: PhantomData })
    }

    fn identifier(id: Identifier<'ast>) -> (r: Self) {
        BooleanExpression::Identifier(IdentifierExpression::new(id))
    }
}

impl<'ast, T> Id<'ast, T> for UExpression<'ast, T> {
    open spec fn identifier_of(id: Identifier<'ast>) -> UExpressionInner<'ast, T> {
        UExpressionInner::Identifier(IdentifierExpression { id, ty: PhantomData })
    }

    fn identifier(id: Identifier<'ast>) -> (r: UExpressionInner<'ast, T>) {
        UExpressionInner::Identifier(IdentifierExpression::new(id))
    }
}

/// A variable, or an expression of another form.
pub enum IdentifierOrExpression<'ast, T, E: Expr<'ast, T>> {
    Identifier(IdentifierExpression<'ast, E>),
    Expression(E::Inner),
}

/// Expressions that can choose between two values of their kind.
pub trait Conditional<'ast, T>: Sized {
    /// `condition ? consequence : alternative`, as an expression of this kind.
    spec fn conditional_of(
        condition: BooleanExpression<'ast, T>,
        consequence: Self,
        alternative: Self,
    ) -> Self;

    /// Builds `condition ? consequence : alternative`.
    fn conditional(condition: BooleanExpression<'ast, T>, consequence: Self, alternative: Self) -> (r:
        Self)
        ensures
            r == Self::conditional_of(condition, consequence, alternative),
    ;
}

/// A conditional, or an expression of another form.
pub enum ConditionalOrExpression<'ast, T, E: Expr<'ast, T>> {
    Conditional(ConditionalExpression<'ast, T, E>),
    Expression(E::Inner),
}

/// The conditional expression of the three given expressions.
pub open spec fn conditional_expression<'ast, T, E>(
    condition: BooleanExpression<'ast, T>,
    consequence: E,
    alternative: E,
) -> ConditionalExpression<'ast, T, E> {
    ConditionalExpression {
        condition: Box::new(condition),
        consequence: Box::new(consequence),
        alternative: Box::new(alternative),
    }
}

impl<'ast, T> Conditional<'ast, T> for FieldElementExpression<'ast, T> {
    open spec fn conditional_of(condition: BooleanExpression<'ast, T>, consequence: Self, alternative: Self) -> Self {
        FieldElementExpression::Conditional(conditional_expression(condition, consequence, alternative))
    }

    fn conditional(condition: BooleanExpression<'ast, T>, consequence: Self, alternative: Self) -> (r: Self) {
        FieldElementExpression::Conditional(ConditionalExpression::new(condition, consequence, alternative))
    }
}

impl<'ast, T> Conditional<'ast, T> for BooleanExpression<'ast, T> {
    open spec fn conditional_of(condition: BooleanExpression<'ast, T>, consequence: Self, alternative: Self) -> Self {
        BooleanExpression::Conditional(conditional_expression(condition, consequence, alternative))
    }

    fn conditional(condition: BooleanExpression<'ast, T>, consequence: Self, alternative: Self) -> (r: Self) {
        BooleanExpression::Conditional(ConditionalExpression::new(condition, consequence, alternative))
    }
}

impl<'ast, T> Conditional<'ast, T> for UExpression<'ast, T> {
    /// The conditional has the width of the consequence.
    open spec fn conditional_of(condition: BooleanExpression<'ast, T>, consequence: Self, alternative: Self) -> Self {
        UExpression {
            bitwidth: consequence.bitwidth,
            inner: UExpressionInner::Conditional(conditional_expression(condition, consequence, alternative)),
        }
    }

    fn conditional(condition: BooleanExpression<'ast, T>, consequence: Self, alternative: Self) -> (r: Self) {
        let bitwidth = consequence.bitwidth;
        UExpressionInner::Conditional(ConditionalExpression::new(condition, consequence, alternative)).annotate(bitwidth)
    }
}

/// Expressions that can pick an element of an array of their kind.
pub trait Select<'ast, T>: Sized {
    /// The arrays this kind can select from.
    spec fn selectable(array: Seq<Self>) -> bool;

    /// Whether `r` is `array[index]`, as an expression of this kind.
    spec fn is_select_of(r: Self, array: Seq<Self>, index: UExpression<'ast, T>) -> bool;

    /// Builds `array[index]`.
    fn select(array: Vec<Self>, index: UExpression<'ast, T>) -> (r: Self)
        requires
            Self::selectable(array@),
        ensures
            Self::is_select_of(r, array@, index),
    ;
}

/// A selection, or an expression of another form.
pub enum SelectOrExpression<'ast, T, E: Expr<'ast, T>> {
    Select(SelectExpression<'ast, T, E>),
    Expression(E::Inner),
}

impl<'ast, T> Select<'ast, T> for FieldElementExpression<'ast, T> {
    /// Any array.
    open spec fn selectable(array: Seq<Self>) -> bool {
        true
    }

    open spec fn is_select_of(r: Self, array: Seq<Self>, index: UExpression<'ast, T>) -> bool {
        r matches FieldElementExpression::Select(s) && s.array@ == array && *s.index == index
    }

    fn select(array: Vec<Self>, index: UExpression<'ast, T>) -> (r: Self) {
        FieldElementExpression::Select(SelectExpression::new(array, index))
    }
}

impl<'ast, T> Select<'ast, T> for BooleanExpression<'ast, T> {
    /// Any array.
    open spec fn selectable(array: Seq<Self>) -> bool {
        true
    }

    open spec fn is_select_of(r: Self, array: Seq<Self>, index: UExpression<'ast, T>) -> bool {
        r matches BooleanExpression::Select(s) && s.array@ == array && *s.index == index
    }

    fn select(array: Vec<Self>, index: UExpression<'ast, T>) -> (r: Self) {
        BooleanExpression::Select(SelectExpression::new(array, index))
    }
}

impl<'ast, T> Select<'ast, T> for UExpression<'ast, T> {
    /// A non-empty array: the selection takes the width of its first element.
    open spec fn selectable(array: Seq<Self>) -> bool {
        array.len() > 0
    }

    open spec fn is_select_of(r: Self, array: Seq<Self>, index: UExpression<'ast, T>) -> bool {
        &&& r.bitwidth == array[0].bitwidth
        &&& r.inner matches UExpressionInner::Select(s) && s.array@ == array && *s.index == index
    }

    fn select(array: Vec<Self>, index: UExpression<'ast, T>) -> (r: Self) {
        let bitwidth = array[0].bitwidth;
        UExpressionInner::Select(SelectExpression::new(array, index)).annotate(bitwidth)
    }
}

/// Values that stand for a type.
pub trait IntoType: Sized {
    /// The type that the value stands for.
    spec fn type_for(self) -> Type;

    /// Computes the type that the value stands for.
    fn into_type(self) -> (t: Type)
        ensures
            t == self.type_for(),
    ;
}

impl IntoType for Type {
    open spec fn type_for(self) -> Type {
        self
    }

    fn into_type(self) -> (t: Type) {
        self
    }
}

impl IntoType for UBitwidth {
    /// The unsigned integer type of this width.
    open spec fn type_for(self) -> Type {
        Type::Uint(self)
    }

    fn into_type(self) -> (t: Type) {
        Type::Uint(self)
    }
}

/// Expressions that may be constants.
pub trait Constant: Sized {
    /// Whether the expression is a constant.
    spec fn constant(&self) -> bool;

    /// Computes whether the expression is a constant.
    fn is_constant(&self) -> (b: bool)
        ensures
            b == self.constant(),
    ;
}

impl<'ast, T> Constant for ZirExpression<'ast, T> {
    /// The wrapped expression is a constant.
    open spec fn constant(&self) -> bool {
        match self {
            ZirExpression::FieldElement(e) => e.constant(),
            ZirExpression::Boolean(e) => e.constant(),
            ZirExpression::Uint(e) => e.constant(),
        }
    }

    fn is_constant(&self) -> (b: bool) {
        match self {
            ZirExpression::FieldElement(e) => e.is_constant(),
            ZirExpression::Boolean(e) => e.is_constant(),
            ZirExpression::Uint(e) => e.is_constant(),
        }
    }
}

impl<'ast, T> Constant for FieldElementExpression<'ast, T> {
    /// A number.
    open spec fn constant(&self) -> bool {
        self is Number
    }

    fn is_constant(&self) -> (b: bool) {
        matches!(self, FieldElementExpression::Number(..))
    }
}

impl<'ast, T> Constant for BooleanExpression<'ast, T> {
    /// A boolean value.
    open spec fn constant(&self) -> bool {
        self is Value
    }

    fn is_constant(&self) -> (b: bool) {
        matches!(self, BooleanExpression::Value(..))
    }
}

impl<'ast, T> Constant for UExpression<'ast, T> {
    /// An integer value.
    open spec fn constant(&self) -> bool {
        self.inner is Value
    }

    fn is_constant(&self) -> (b: bool) {
        matches!(self.as_inner(), UExpressionInner::Value(..))
    }
}

} // verus!
