//! Copies of ZIR expressions, statements and functions.
//!
//! A copy has the shape of the value it copies, equal names, types, widths
//! and constants, and at each number a clone of the copied field element
//! (`cloned`). Vectors are compared by their contents.
use vstd::prelude::*;
use crate::typed::ConcreteType;
use super::types::clone_types;
use super::uint::{UExpression, UExpressionInner};
use super::variable::clone_variables;
use super::parameter::clone_parameters;
use super::{
    BooleanExpression, ConditionalExpression, FieldElementExpression, IdentifierExpression,
    SelectExpression, ZirAssemblyStatement, ZirExpression, ZirExpressionList, ZirFunction,
    ZirProgram, ZirStatement,
};

verus! {

/// `b` is a copy of the field expression `a`.
pub open spec fn fe_cloned<'ast, T: Clone>(a: FieldElementExpression<'ast, T>, b: FieldElementExpression<'ast, T>) -> bool
    decreases a,
{
    match a {
        FieldElementExpression::Number(x) => b matches FieldElementExpression::Number(y) && cloned::<T>(x, y),
        FieldElementExpression::Identifier(x) => b matches FieldElementExpression::Identifier(y) && y.id == x.id,
        FieldElementExpression::Select(x) => b matches FieldElementExpression::Select(y) && fe_select_cloned(x, y),
        FieldElementExpression::Add(l, r) => b matches FieldElementExpression::Add(l2, r2) && fe_cloned(*l, *l2) && fe_cloned(*r, *r2),
        FieldElementExpression::Sub(l, r) => b matches FieldElementExpression::Sub(l2, r2) && fe_cloned(*l, *l2) && fe_cloned(*r, *r2),
        FieldElementExpression::Mult(l, r) => b matches FieldElementExpression::Mult(l2, r2) && fe_cloned(*l, *l2) && fe_cloned(*r, *r2),
        FieldElementExpression::Div(l, r) => b matches FieldElementExpression::Div(l2, r2) && fe_cloned(*l, *l2) && fe_cloned(*r, *r2),
        FieldElementExpression::Pow(l, r) => b matches FieldElementExpression::Pow(l2, r2) && fe_cloned(*l, *l2) && u_cloned(*r, *r2),
        FieldElementExpression::And(l, r) => b matches FieldElementExpression::And(l2, r2) && fe_cloned(*l, *l2) && fe_cloned(*r, *r2),
        FieldElementExpression::Or(l, r) => b matches FieldElementExpression::Or(l2, r2) && fe_cloned(*l, *l2) && fe_cloned(*r, *r2),
        FieldElementExpression::Xor(l, r) => b matches FieldElementExpression::Xor(l2, r2) && fe_cloned(*l, *l2) && fe_cloned(*r, *r2),
        FieldElementExpression::LeftShift(l, r) => b matches FieldElementExpression::LeftShift(l2, r2) && fe_cloned(*l, *l2) && u_cloned(*r, *r2),
        FieldElementExpression::RightShift(l, r) => b matches FieldElementExpression::RightShift(l2, r2) && fe_cloned(*l, *l2) && u_cloned(*r, *r2),
        FieldElementExpression::Conditional(x) => b matches FieldElementExpression::Conditional(y) && fe_conditional_cloned(x, y),
    }
}

/// `b` is a copy, element by element, of the field expressions `a`.
pub open spec fn fe_list_cloned<'ast, T: Clone>(a: Seq<FieldElementExpression<'ast, T>>, b: Seq<FieldElementExpression<'ast, T>>) -> bool
    decreases a,
{
    &&& a.len() == b.len()
    &&& a.len() > 0 ==> fe_list_cloned(a.drop_last(), b.drop_last()) && fe_cloned(a.last(), b.last())
}

/// `b` is a copy of the selection `a`.
pub open spec fn fe_select_cloned<'ast, T: Clone>(
    a: SelectExpression<'ast, T, FieldElementExpression<'ast, T>>,
    b: SelectExpression<'ast, T, FieldElementExpression<'ast, T>>,
) -> bool
    decreases a,
{
    fe_list_cloned(a.array@, b.array@) && u_cloned(*a.index, *b.index)
}

/// `b` is a copy of the conditional `a`.
pub open spec fn fe_conditional_cloned<'ast, T: Clone>(
    a: ConditionalExpression<'ast, T, FieldElementExpression<'ast, T>>,
    b: ConditionalExpression<'ast, T, FieldElementExpression<'ast, T>>,
) -> bool
    decreases a,
{
    b_cloned(*a.condition, *b.condition) && fe_cloned(*a.consequence, *b.consequence)
        && fe_cloned(*a.alternative, *b.alternative)
}

/// `b` is a copy of the integer expression `a`: same width, copied form.
pub open spec fn u_cloned<'ast, T: Clone>(a: UExpression<'ast, T>, b: UExpression<'ast, T>) -> bool
    decreases a,
{
    a.bitwidth == b.bitwidth && u_inner_cloned(a.inner, b.inner)
}

/// `b` is a copy of the form `a` of an integer expression.
pub open spec fn u_inner_cloned<'ast, T: Clone>(a: UExpressionInner<'ast, T>, b: UExpressionInner<'ast, T>) -> bool
    decreases a,
{
    match a {
        UExpressionInner::Identifier(x) => b matches UExpressionInner::Identifier(y) && y.id == x.id,
        UExpressionInner::Value(v) => b matches UExpressionInner::Value(w) && w == v,
        UExpressionInner::Add(l, r) => b matches UExpressionInner::Add(l2, r2) && u_cloned(*l, *l2) && u_cloned(*r, *r2),
        UExpressionInner::Sub(l, r) => b matches UExpressionInner::Sub(l2, r2) && u_cloned(*l, *l2) && u_cloned(*r, *r2),
        UExpressionInner::Mult(l, r) => b matches UExpressionInner::Mult(l2, r2) && u_cloned(*l, *l2) && u_cloned(*r, *r2),
        UExpressionInner::Div(l, r) => b matches UExpressionInner::Div(l2, r2) && u_cloned(*l, *l2) && u_cloned(*r, *r2),
        UExpressionInner::Rem(l, r) => b matches UExpressionInner::Rem(l2, r2) && u_cloned(*l, *l2) && u_cloned(*r, *r2),
        UExpressionInner::Xor(l, r) => b matches UExpressionInner::Xor(l2, r2) && u_cloned(*l, *l2) && u_cloned(*r, *r2),
        UExpressionInner::And(l, r) => b matches UExpressionInner::And(l2, r2) && u_cloned(*l, *l2) && u_cloned(*r, *r2),
        UExpressionInner::Or(l, r) => b matches UExpressionInner::Or(l2, r2) && u_cloned(*l, *l2) && u_cloned(*r, *r2),
        UExpressionInner::LeftShift(l, by) => b matches UExpressionInner::LeftShift(l2, by2) && u_cloned(*l, *l2) && by2 == by,
        UExpressionInner::RightShift(l, by) => b matches UExpressionInner::RightShift(l2, by2) && u_cloned(*l, *l2) && by2 == by,
        UExpressionInner::Not(x) => b matches UExpressionInner::Not(y) && u_cloned(*x, *y),
        UExpressionInner::Select(x) => b matches UExpressionInner::Select(y) && u_select_cloned(x, y),
        UExpressionInner::Conditional(x) => b matches UExpressionInner::Conditional(y) && u_conditional_cloned(x, y),
    }
}

/// `b` is a copy, element by element, of the integer expressions `a`.
pub open spec fn u_list_cloned<'ast, T: Clone>(a: Seq<UExpression<'ast, T>>, b: Seq<UExpression<'ast, T>>) -> bool
    decreases a,
{
    &&& a.len() == b.len()
    &&& a.len() > 0 ==> u_list_cloned(a.drop_last(), b.drop_last()) && u_cloned(a.last(), b.last())
}

/// `b` is a copy of the selection `a`.
pub open spec fn u_select_cloned<'ast, T: Clone>(
    a: SelectExpression<'ast, T, UExpression<'ast, T>>,
    b: SelectExpression<'ast, T, UExpression<'ast, T>>,
) -> bool
    decreases a,
{
    u_list_cloned(a.array@, b.array@) && u_cloned(*a.index, *b.index)
}

/// `b` is a copy of the conditional `a`.
pub open spec fn u_conditional_cloned<'ast, T: Clone>(
    a: ConditionalExpression<'ast, T, UExpression<'ast, T>>,
    b: ConditionalExpression<'ast, T, UExpression<'ast, T>>,
) -> bool
    decreases a,
{
    b_cloned(*a.condition, *b.condition) && u_cloned(*a.consequence, *b.consequence)
        && u_cloned(*a.alternative, *b.alternative)
}

/// `b` is a copy of the boolean expression `a`.
pub open spec fn b_cloned<'ast, T: Clone>(a: BooleanExpression<'ast, T>, b: BooleanExpression<'ast, T>) -> bool
    decreases a,
{
    match a {
        BooleanExpression::Value(v) => b matches BooleanExpression::Value(w) && w == v,
        BooleanExpression::Identifier(x) => b matches BooleanExpression::Identifier(y) && y.id == x.id,
        BooleanExpression::Select(x) => b matches BooleanExpression::Select(y) && b_select_cloned(x, y),
        BooleanExpression::FieldLt(l, r) => b matches BooleanExpression::FieldLt(l2, r2) && fe_cloned(*l, *l2) && fe_cloned(*r, *r2),
        BooleanExpression::FieldLe(l, r) => b matches BooleanExpression::FieldLe(l2, r2) && fe_cloned(*l, *l2) && fe_cloned(*r, *r2),
        BooleanExpression::FieldEq(l, r) => b matches BooleanExpression::FieldEq(l2, r2) && fe_cloned(*l, *l2) && fe_cloned(*r, *r2),
        BooleanExpression::UintLt(l, r) => b matches BooleanExpression::UintLt(l2, r2) && u_cloned(*l, *l2) && u_cloned(*r, *r2),
        BooleanExpression::UintLe(l, r) => b matches BooleanExpression::UintLe(l2, r2) && u_cloned(*l, *l2) && u_cloned(*r, *r2),
        BooleanExpression::UintEq(l, r) => b matches BooleanExpression::UintEq(l2, r2) && u_cloned(*l, *l2) && u_cloned(*r, *r2),
        BooleanExpression::BoolEq(l, r) => b matches BooleanExpression::BoolEq(l2, r2) && b_cloned(*l, *l2) && b_cloned(*r, *r2),
        BooleanExpression::Or(l, r) => b matches BooleanExpression::Or(l2, r2) && b_cloned(*l, *l2) && b_cloned(*r, *r2),
        BooleanExpression::And(l, r) => b matches BooleanExpression::And(l2, r2) && b_cloned(*l, *l2) && b_cloned(*r, *r2),
        BooleanExpression::Not(x) => b matches BooleanExpression::Not(y) && b_cloned(*x, *y),
        BooleanExpression::Conditional(x) => b matches BooleanExpression::Conditional(y) && b_conditional_cloned(x, y),
    }
}

/// `b` is a copy, element by element, of the boolean expressions `a`.
pub open spec fn b_list_cloned<'ast, T: Clone>(a: Seq<BooleanExpression<'ast, T>>, b: Seq<BooleanExpression<'ast, T>>) -> bool
    decreases a,
{
    &&& a.len() == b.len()
    &&& a.len() > 0 ==> b_list_cloned(a.drop_last(), b.drop_last()) && b_cloned(a.last(), b.last())
}

/// `b` is a copy of the selection `a`.
pub open spec fn b_select_cloned<'ast, T: Clone>(
    a: SelectExpression<'ast, T, BooleanExpression<'ast, T>>,
    b: SelectExpression<'ast, T, BooleanExpression<'ast, T>>,
) -> bool
    decreases a,
{
    b_list_cloned(a.array@, b.array@) && u_cloned(*a.index, *b.index)
}

/// `b` is a copy of the conditional `a`.
pub open spec fn b_conditional_cloned<'ast, T: Clone>(
    a: ConditionalExpression<'ast, T, BooleanExpression<'ast, T>>,
    b: ConditionalExpression<'ast, T, BooleanExpression<'ast, T>>,
) -> bool
    decreases a,
{
    b_cloned(*a.condition, *b.condition) && b_cloned(*a.consequence, *b.consequence)
        && b_cloned(*a.alternative, *b.alternative)
}

/// Copies a field expression.
pub fn clone_fe<'ast, T: Clone>(e: &FieldElementExpression<'ast, T>) -> (r: FieldElementExpression<'ast, T>)
    ensures
        fe_cloned(*e, r),
    decreases e,
{
    match e {
        FieldElementExpression::Number(x) => FieldElementExpression::Number(x.clone()),
        FieldElementExpression::Identifier(x) => FieldElementExpression::Identifier(IdentifierExpression::new(x.id.clone())),
        FieldElementExpression::Select(x) => FieldElementExpression::Select(clone_fe_select(x)),
        FieldElementExpression::Add(l, r) => FieldElementExpression::Add(Box::new(clone_fe(l)), Box::new(clone_fe(r))),
        FieldElementExpression::Sub(l, r) => FieldElementExpression::Sub(Box::new(clone_fe(l)), Box::new(clone_fe(r))),
        FieldElementExpression::Mult(l, r) => FieldElementExpression::Mult(Box::new(clone_fe(l)), Box::new(clone_fe(r))),
        FieldElementExpression::Div(l, r) => FieldElementExpression::Div(Box::new(clone_fe(l)), Box::new(clone_fe(r))),
        FieldElementExpression::Pow(l, r) => FieldElementExpression::Pow(Box::new(clone_fe(l)), Box::new(clone_u(r))),
        FieldElementExpression::And(l, r) => FieldElementExpression::And(Box::new(clone_fe(l)), Box::new(clone_fe(r))),
        FieldElementExpression::Or(l, r) => FieldElementExpression::Or(Box::new(clone_fe(l)), Box::new(clone_fe(r))),
        FieldElementExpression::Xor(l, r) => FieldElementExpression::Xor(Box::new(clone_fe(l)), Box::new(clone_fe(r))),
        FieldElementExpression::LeftShift(l, r) => FieldElementExpression::LeftShift(Box::new(clone_fe(l)), Box::new(clone_u(r))),
        FieldElementExpression::RightShift(l, r) => FieldElementExpression::RightShift(Box::new(clone_fe(l)), Box::new(clone_u(r))),
        FieldElementExpression::Conditional(x) => FieldElementExpression::Conditional(clone_fe_conditional(x)),
    }
}

/// Copies a list of field expressions.
pub fn clone_fe_list<'ast, T: Clone>(items: &Vec<FieldElementExpression<'ast, T>>) -> (r: Vec<FieldElementExpression<'ast, T>>)
    ensures
        fe_list_cloned(items@, r@),
    decreases items,
{
    let mut r: Vec<FieldElementExpression<'ast, T>> = Vec::new();
    let n = items.len();
    let mut i: usize = 0;
    while i < n
        invariant
            n == items.len(),
            i <= n,
            fe_list_cloned(items@.take(i as int), r@),
        decreases n - i,
    {
        let item = &items[i];
        proof {
            assert(decreases_to!(*items => items@));
            assert(decreases_to!(items@ => items@[i as int]));
        }
        let c = clone_fe(item);
        let ghost before = r@;
        r.push(c);
        assert(items@.take(i + 1).drop_last() == items@.take(i as int));
        assert(r@.drop_last() == before);
        i = i + 1;
    }
    assert(items@.take(n as int) == items@);
    r
}

/// Copies a selection among field expressions.
pub fn clone_fe_select<'ast, T: Clone>(s: &SelectExpression<'ast, T, FieldElementExpression<'ast, T>>) -> (r: SelectExpression<'ast, T, FieldElementExpression<'ast, T>>)
    ensures
        fe_select_cloned(*s, r),
    decreases s,
{
    SelectExpression { array: clone_fe_list(&s.array), index: Box::new(clone_u(&s.index)) }
}

/// Copies a conditional among field expressions.
pub fn clone_fe_conditional<'ast, T: Clone>(c: &ConditionalExpression<'ast, T, FieldElementExpression<'ast, T>>) -> (r: ConditionalExpression<'ast, T, FieldElementExpression<'ast, T>>)
    ensures
        fe_conditional_cloned(*c, r),
    decreases c,
{
    ConditionalExpression {
        condition: Box::new(clone_b(&c.condition)),
        consequence: Box::new(clone_fe(&c.consequence)),
        alternative: Box::new(clone_fe(&c.alternative)),
    }
}

/// Copies an integer expression.
pub fn clone_u<'ast, T: Clone>(e: &UExpression<'ast, T>) -> (r: UExpression<'ast, T>)
    ensures
        u_cloned(*e, r),
    decreases e,
{
    UExpression { bitwidth: e.bitwidth, inner: clone_u_inner(&e.inner) }
}

/// Copies the form of an integer expression.
pub fn clone_u_inner<'ast, T: Clone>(e: &UExpressionInner<'ast, T>) -> (r: UExpressionInner<'ast, T>)
    ensures
        u_inner_cloned(*e, r),
    decreases e,
{
    match e {
        UExpressionInner::Identifier(x) => UExpressionInner::Identifier(IdentifierExpression::new(x.id.clone())),
        UExpressionInner::Value(v) => UExpressionInner::Value(*v),
        UExpressionInner::Add(l, r) => UExpressionInner::Add(Box::new(clone_u(l)), Box::new(clone_u(r))),
        UExpressionInner::Sub(l, r) => UExpressionInner::Sub(Box::new(clone_u(l)), Box::new(clone_u(r))),
        UExpressionInner::Mult(l, r) => UExpressionInner::Mult(Box::new(clone_u(l)), Box::new(clone_u(r))),
        UExpressionInner::Div(l, r) => UExpressionInner::Div(Box::new(clone_u(l)), Box::new(clone_u(r))),
        UExpressionInner::Rem(l, r) => UExpressionInner::Rem(Box::new(clone_u(l)), Box::new(clone_u(r))),
        UExpressionInner::Xor(l, r) => UExpressionInner::Xor(Box::new(clone_u(l)), Box::new(clone_u(r))),
        UExpressionInner::And(l, r) => UExpressionInner::And(Box::new(clone_u(l)), Box::new(clone_u(r))),
        UExpressionInner::Or(l, r) => UExpressionInner::Or(Box::new(clone_u(l)), Box::new(clone_u(r))),
        UExpressionInner::LeftShift(l, by) => UExpressionInner::LeftShift(Box::new(clone_u(l)), *by),
        UExpressionInner::RightShift(l, by) => UExpressionInner::RightShift(Box::new(clone_u(l)), *by),
        UExpressionInner::Not(x) => UExpressionInner::Not(Box::new(clone_u(x))),
        UExpressionInner::Select(x) => UExpressionInner::Select(clone_u_select(x)),
        UExpressionInner::Conditional(x) => UExpressionInner::Conditional(clone_u_conditional(x)),
    }
}

/// Copies a list of integer expressions.
pub fn clone_u_list<'ast, T: Clone>(items: &Vec<UExpression<'ast, T>>) -> (r: Vec<UExpression<'ast, T>>)
    ensures
        u_list_cloned(items@, r@),
    decreases items,
{
    let mut r: Vec<UExpression<'ast, T>> = Vec::new();
    let n = items.len();
    let mut i: usize = 0;
    while i < n
        invariant
            n == items.len(),
            i <= n,
            u_list_cloned(items@.take(i as int), r@),
        decreases n - i,
    {
        let item = &items[i];
        proof {
            assert(decreases_to!(*items => items@));
            assert(decreases_to!(items@ => items@[i as int]));
        }
        let c = clone_u(item);
        let ghost before = r@;
        r.push(c);
        assert(items@.take(i + 1).drop_last() == items@.take(i as int));
        assert(r@.drop_last() == before);
        i = i + 1;
    }
    assert(items@.take(n as int) == items@);
    r
}

/// Copies a selection among integer expressions.
pub fn clone_u_select<'ast, T: Clone>(s: &SelectExpression<'ast, T, UExpression<'ast, T>>) -> (r: SelectExpression<'ast, T, UExpression<'ast, T>>)
    ensures
        u_select_cloned(*s, r),
    decreases s,
{
    SelectExpression { array: clone_u_list(&s.array), index: Box::new(clone_u(&s.index)) }
}

/// Copies a conditional among integer expressions.
pub fn clone_u_conditional<'ast, T: Clone>(c: &ConditionalExpression<'ast, T, UExpression<'ast, T>>) -> (r: ConditionalExpression<'ast, T, UExpression<'ast, T>>)
    ensures
        u_conditional_cloned(*c, r),
    decreases c,
{
    ConditionalExpression {
        condition: Box::new(clone_b(&c.condition)),
        consequence: Box::new(clone_u(&c.consequence)),
        alternative: Box::new(clone_u(&c.alternative)),
    }
}

/// Copies a boolean expression.
pub fn clone_b<'ast, T: Clone>(e: &BooleanExpression<'ast, T>) -> (r: BooleanExpression<'ast, T>)
    ensures
        b_cloned(*e, r),
    decreases e,
{
    match e {
        BooleanExpression::Value(v) => BooleanExpression::Value(*v),
        BooleanExpression::Identifier(x) => BooleanExpression::Identifier(IdentifierExpression::new(x.id.clone())),
        BooleanExpression::Select(x) => BooleanExpression::Select(clone_b_select(x)),
        BooleanExpression::FieldLt(l, r) => BooleanExpression::FieldLt(Box::new(clone_fe(l)), Box::new(clone_fe(r))),
        BooleanExpression::FieldLe(l, r) => BooleanExpression::FieldLe(Box::new(clone_fe(l)), Box::new(clone_fe(r))),
        BooleanExpression::FieldEq(l, r) => BooleanExpression::FieldEq(Box::new(clone_fe(l)), Box::new(clone_fe(r))),
        BooleanExpression::UintLt(l, r) => BooleanExpression::UintLt(Box::new(clone_u(l)), Box::new(clone_u(r))),
        BooleanExpression::UintLe(l, r) => BooleanExpression::UintLe(Box::new(clone_u(l)), Box::new(clone_u(r))),
        BooleanExpression::UintEq(l, r) => BooleanExpression::UintEq(Box::new(clone_u(l)), Box::new(clone_u(r))),
        BooleanExpression::BoolEq(l, r) => BooleanExpression::BoolEq(Box::new(clone_b(l)), Box::new(clone_b(r))),
        BooleanExpression::Or(l, r) => BooleanExpression::Or(Box::new(clone_b(l)), Box::new(clone_b(r))),
        BooleanExpression::And(l, r) => BooleanExpression::And(Box::new(clone_b(l)), Box::new(clone_b(r))),
        BooleanExpression::Not(x) => BooleanExpression::Not(Box::new(clone_b(x))),
        BooleanExpression::Conditional(x) => BooleanExpression::Conditional(clone_b_conditional(x)),
    }
}

/// Copies a list of boolean expressions.
pub fn clone_b_list<'ast, T: Clone>(items: &Vec<BooleanExpression<'ast, T>>) -> (r: Vec<BooleanExpression<'ast, T>>)
    ensures
        b_list_cloned(items@, r@),
    decreases items,
{
    let mut r: Vec<BooleanExpression<'ast, T>> = Vec::new();
    let n = items.len();
    let mut i: usize = 0;
    while i < n
        invariant
            n == items.len(),
            i <= n,
            b_list_cloned(items@.take(i as int), r@),
        decreases n - i,
    {
        let item = &items[i];
        proof {
            assert(decreases_to!(*items => items@));
            assert(decreases_to!(items@ => items@[i as int]));
        }
        let c = clone_b(item);
        let ghost before = r@;
        r.push(c);
        assert(items@.take(i + 1).drop_last() == items@.take(i as int));
        assert(r@.drop_last() == before);
        i = i + 1;
    }
    assert(items@.take(n as int) == items@);
    r
}

/// Copies a selection among boolean expressions.
pub fn clone_b_select<'ast, T: Clone>(s: &SelectExpression<'ast, T, BooleanExpression<'ast, T>>) -> (r: SelectExpression<'ast, T, BooleanExpression<'ast, T>>)
    ensures
        b_select_cloned(*s, r),
    decreases s,
{
    SelectExpression { array: clone_b_list(&s.array), index: Box::new(clone_u(&s.index)) }
}

/// Copies a conditional among boolean expressions.
pub fn clone_b_conditional<'ast, T: Clone>(c: &ConditionalExpression<'ast, T, BooleanExpression<'ast, T>>) -> (r: ConditionalExpression<'ast, T, BooleanExpression<'ast, T>>)
    ensures
        b_conditional_cloned(*c, r),
    decreases c,
{
    ConditionalExpression {
        condition: Box::new(clone_b(&c.condition)),
        consequence: Box::new(clone_b(&c.consequence)),
        alternative: Box::new(clone_b(&c.alternative)),
    }
}

/// `b` is a copy of the typed expression `a`.
pub open spec fn zir_cloned<'ast, T: Clone>(a: ZirExpression<'ast, T>, b: ZirExpression<'ast, T>) -> bool {
    match a {
        ZirExpression::Boolean(x) => b matches ZirExpression::Boolean(y) && b_cloned(x, y),
        ZirExpression::FieldElement(x) => b matches ZirExpression::FieldElement(y) && fe_cloned(x, y),
        ZirExpression::Uint(x) => b matches ZirExpression::Uint(y) && u_cloned(x, y),
    }
}

/// `b` is a copy, element by element, of the typed expressions `a`.
pub open spec fn zir_list_cloned<'ast, T: Clone>(a: Seq<ZirExpression<'ast, T>>, b: Seq<ZirExpression<'ast, T>>) -> bool
    decreases a.len(),
{
    &&& a.len() == b.len()
    &&& a.len() > 0 ==> zir_list_cloned(a.drop_last(), b.drop_last()) && zir_cloned(a.last(), b.last())
}

/// `b` is a copy of the call `a`.
pub open spec fn expression_list_cloned<'ast, T: Clone>(a: ZirExpressionList<'ast, T>, b: ZirExpressionList<'ast, T>) -> bool {
    match (a, b) {
        (ZirExpressionList::EmbedCall(e, g, args), ZirExpressionList::EmbedCall(e2, g2, args2)) => e2 == e && g2@ == g@ && zir_list_cloned(args@, args2@),
    }
}

/// `b` is a copy, argument by argument, of the arguments `a` of a `log` statement.
pub open spec fn log_arguments_cloned<'ast, T: Clone>(
    a: Seq<(ConcreteType, Vec<ZirExpression<'ast, T>>)>,
    b: Seq<(ConcreteType, Vec<ZirExpression<'ast, T>>)>,
) -> bool
    decreases a.len(),
{
    &&& a.len() == b.len()
    &&& a.len() > 0 ==> log_arguments_cloned(a.drop_last(), b.drop_last()) && b.last().0 == a.last().0
        && zir_list_cloned(a.last().1@, b.last().1@)
}

/// `b` is a copy of the statement `a`.
pub open spec fn stmt_cloned<'ast, T: Clone>(a: ZirStatement<'ast, T>, b: ZirStatement<'ast, T>) -> bool
    decreases a,
{
    match a {
        ZirStatement::Return(es) => b matches ZirStatement::Return(es2) && zir_list_cloned(es@, es2@),
        ZirStatement::Definition(v, e) => b matches ZirStatement::Definition(v2, e2) && v2 == v && zir_cloned(e, e2),
        ZirStatement::IfElse(c, cons, alt) => b matches ZirStatement::IfElse(c2, cons2, alt2) && b_cloned(c, c2)
            && block_cloned(cons@, cons2@) && block_cloned(alt@, alt2@),
        ZirStatement::Assertion(e, err) => b matches ZirStatement::Assertion(e2, err2) && b_cloned(e, e2) && err2 == err,
        ZirStatement::MultipleDefinition(vs, l) => b matches ZirStatement::MultipleDefinition(vs2, l2) && vs2@ == vs@
            && expression_list_cloned(l, l2),
        ZirStatement::Log(fs, args) => b matches ZirStatement::Log(fs2, args2) && fs2.parts@ == fs.parts@
            && log_arguments_cloned(args@, args2@),
        ZirStatement::Assembly(ss) => b matches ZirStatement::Assembly(ss2) && asm_block_cloned(ss@, ss2@),
    }
}

/// `b` is a copy, statement by statement, of the statements `a`.
pub open spec fn block_cloned<'ast, T: Clone>(a: Seq<ZirStatement<'ast, T>>, b: Seq<ZirStatement<'ast, T>>) -> bool
    decreases a,
{
    &&& a.len() == b.len()
    &&& a.len() > 0 ==> block_cloned(a.drop_last(), b.drop_last()) && stmt_cloned(a.last(), b.last())
}

/// `b` is a copy of the assembly statement `a`.
pub open spec fn asm_cloned<'ast, T: Clone>(a: ZirAssemblyStatement<'ast, T>, b: ZirAssemblyStatement<'ast, T>) -> bool
    decreases a,
{
    match a {
        ZirAssemblyStatement::Assignment(vs, f) => b matches ZirAssemblyStatement::Assignment(vs2, f2) && vs2@ == vs@
            && function_cloned(f, f2),
        ZirAssemblyStatement::Constraint(l, r, m) => b matches ZirAssemblyStatement::Constraint(l2, r2, m2)
            && fe_cloned(l, l2) && fe_cloned(r, r2) && m2 == m,
    }
}

/// `b` is a copy, statement by statement, of the assembly statements `a`.
pub open spec fn asm_block_cloned<'ast, T: Clone>(a: Seq<ZirAssemblyStatement<'ast, T>>, b: Seq<ZirAssemblyStatement<'ast, T>>) -> bool
    decreases a,
{
    &&& a.len() == b.len()
    &&& a.len() > 0 ==> asm_block_cloned(a.drop_last(), b.drop_last()) && asm_cloned(a.last(), b.last())
}

/// `b` is a copy of the function `a`: equal parameters and signature, copied body.
pub open spec fn function_cloned<'ast, T: Clone>(a: ZirFunction<'ast, T>, b: ZirFunction<'ast, T>) -> bool
    decreases a,
{
    &&& b.arguments@ == a.arguments@
    &&& block_cloned(a.statements@, b.statements@)
    &&& b.signature.inputs@ == a.signature.inputs@
    &&& b.signature.outputs@ == a.signature.outputs@
}

/// Copies a typed expression.
pub fn clone_zir<'ast, T: Clone>(e: &ZirExpression<'ast, T>) -> (r: ZirExpression<'ast, T>)
    ensures
        zir_cloned(*e, r),
{
    match e {
        ZirExpression::Boolean(x) => ZirExpression::Boolean(clone_b(x)),
        ZirExpression::FieldElement(x) => ZirExpression::FieldElement(clone_fe(x)),
        ZirExpression::Uint(x) => ZirExpression::Uint(clone_u(x)),
    }
}

/// Copies a list of typed expressions.
pub fn clone_zir_list<'ast, T: Clone>(items: &Vec<ZirExpression<'ast, T>>) -> (r: Vec<ZirExpression<'ast, T>>)
    ensures
        zir_list_cloned(items@, r@),
{
    let mut r: Vec<ZirExpression<'ast, T>> = Vec::new();
    let n = items.len();
    let mut i: usize = 0;
    while i < n
        invariant
            n == items.len(),
            i <= n,
            zir_list_cloned(items@.take(i as int), r@),
        decreases n - i,
    {
        let c = clone_zir(&items[i]);
        let ghost before = r@;
        r.push(c);
        assert(items@.take(i + 1).drop_last() == items@.take(i as int));
        assert(r@.drop_last() == before);
        i = i + 1;
    }
    assert(items@.take(n as int) == items@);
    r
}

/// Copies a list of generic arguments.
fn clone_generics(g: &Vec<u32>) -> (r: Vec<u32>)
    ensures
        r@ == g@,
{
    let mut r: Vec<u32> = Vec::new();
    let n = g.len();
    let mut i: usize = 0;
    while i < n
        invariant
            n == g.len(),
            i <= n,
            r@ == g@.take(i as int),
        decreases n - i,
    {
        r.push(g[i]);
        assert(r@ == g@.take(i + 1));
        i = i + 1;
    }
    assert(g@.take(n as int) == g@);
    r
}

/// Copies a call.
pub fn clone_expression_list<'ast, T: Clone>(l: &ZirExpressionList<'ast, T>) -> (r: ZirExpressionList<'ast, T>)
    ensures
        expression_list_cloned(*l, r),
{
    match l {
        ZirExpressionList::EmbedCall(e, g, args) => ZirExpressionList::EmbedCall(*e, clone_generics(g), clone_zir_list(args)),
    }
}

/// Copies the arguments of a `log` statement.
fn clone_log_arguments<'ast, T: Clone>(args: &Vec<(ConcreteType, Vec<ZirExpression<'ast, T>>)>) -> (r: Vec<(ConcreteType, Vec<ZirExpression<'ast, T>>)>)
    ensures
        log_arguments_cloned(args@, r@),
{
    let mut r: Vec<(ConcreteType, Vec<ZirExpression<'ast, T>>)> = Vec::new();
    let n = args.len();
    let mut i: usize = 0;
    while i < n
        invariant
            n == args.len(),
            i <= n,
            log_arguments_cloned(args@.take(i as int), r@),
        decreases n - i,
    {
        let c = (args[i].0.clone(), clone_zir_list(&args[i].1));
        let ghost before = r@;
        r.push(c);
        assert(args@.take(i + 1).drop_last() == args@.take(i as int));
        assert(r@.drop_last() == before);
        i = i + 1;
    }
    assert(args@.take(n as int) == args@);
    r
}

/// Copies a statement.
pub fn clone_stmt<'ast, T: Clone>(s: &ZirStatement<'ast, T>) -> (r: ZirStatement<'ast, T>)
    ensures
        stmt_cloned(*s, r),
    decreases s,
{
    match s {
        ZirStatement::Return(es) => ZirStatement::Return(clone_zir_list(es)),
        ZirStatement::Definition(v, e) => ZirStatement::Definition(v.clone(), clone_zir(e)),
        ZirStatement::IfElse(c, cons, alt) => ZirStatement::IfElse(clone_b(c), clone_block(cons), clone_block(alt)),
        ZirStatement::Assertion(e, err) => ZirStatement::Assertion(clone_b(e), err.clone()),
        ZirStatement::MultipleDefinition(vs, l) => ZirStatement::MultipleDefinition(clone_variables(vs), clone_expression_list(l)),
        ZirStatement::Log(fs, args) => ZirStatement::Log(fs.clone(), clone_log_arguments(args)),
        ZirStatement::Assembly(ss) => ZirStatement::Assembly(clone_asm_block(ss)),
    }
}

/// Copies a list of statements.
pub fn clone_block<'ast, T: Clone>(items: &Vec<ZirStatement<'ast, T>>) -> (r: Vec<ZirStatement<'ast, T>>)
    ensures
        block_cloned(items@, r@),
    decreases items,
{
    let mut r: Vec<ZirStatement<'ast, T>> = Vec::new();
    let n = items.len();
    let mut i: usize = 0;
    while i < n
        invariant
            n == items.len(),
            i <= n,
            block_cloned(items@.take(i as int), r@),
        decreases n - i,
    {
        let item = &items[i];
        proof {
            assert(decreases_to!(*items => items@));
            assert(decreases_to!(items@ => items@[i as int]));
        }
        let c = clone_stmt(item);
        let ghost before = r@;
        r.push(c);
        assert(items@.take(i + 1).drop_last() == items@.take(i as int));
        assert(r@.drop_last() == before);
        i = i + 1;
    }
    assert(items@.take(n as int) == items@);
    r
}

/// Copies an assembly statement.
pub fn clone_asm<'ast, T: Clone>(s: &ZirAssemblyStatement<'ast, T>) -> (r: ZirAssemblyStatement<'ast, T>)
    ensures
        asm_cloned(*s, r),
    decreases s,
{
    match s {
        ZirAssemblyStatement::Assignment(vs, f) => ZirAssemblyStatement::Assignment(clone_variables(vs), clone_function(f)),
        ZirAssemblyStatement::Constraint(l, r, m) => ZirAssemblyStatement::Constraint(clone_fe(l), clone_fe(r), m.clone()),
    }
}

/// Copies a list of assembly statements.
pub fn clone_asm_block<'ast, T: Clone>(items: &Vec<ZirAssemblyStatement<'ast, T>>) -> (r: Vec<ZirAssemblyStatement<'ast, T>>)
    ensures
        asm_block_cloned(items@, r@),
    decreases items,
{
    let mut r: Vec<ZirAssemblyStatement<'ast, T>> = Vec::new();
    let n = items.len();
    let mut i: usize = 0;
    while i < n
        invariant
            n == items.len(),
            i <= n,
            asm_block_cloned(items@.take(i as int), r@),
        decreases n - i,
    {
        let item = &items[i];
        proof {
            assert(decreases_to!(*items => items@));
            assert(decreases_to!(items@ => items@[i as int]));
        }
        let c = clone_asm(item);
        let ghost before = r@;
        r.push(c);
        assert(items@.take(i + 1).drop_last() == items@.take(i as int));
        assert(r@.drop_last() == before);
        i = i + 1;
    }
    assert(items@.take(n as int) == items@);
    r
}

/// Copies a function.
pub fn clone_function<'ast, T: Clone>(f: &ZirFunction<'ast, T>) -> (r: ZirFunction<'ast, T>)
    ensures
        function_cloned(*f, r),
    decreases f,
{
    ZirFunction {
        arguments: clone_parameters(&f.arguments),
        statements: clone_block(&f.statements),
        signature: f.signature.clone(),
    }
}

impl<'ast, T: Clone> Clone for FieldElementExpression<'ast, T> {
    /// A copy of the expression.
    fn clone(&self) -> (r: Self)
        ensures
            fe_cloned(*self, r),
    {
        clone_fe(self)
    }
}

impl<'ast, T: Clone> Clone for UExpression<'ast, T> {
    /// A copy of the expression.
    fn clone(&self) -> (r: Self)
        ensures
            u_cloned(*self, r),
    {
        clone_u(self)
    }
}

impl<'ast, T: Clone> Clone for UExpressionInner<'ast, T> {
    /// A copy of the form.
    fn clone(&self) -> (r: Self)
        ensures
            u_inner_cloned(*self, r),
    {
        clone_u_inner(self)
    }
}

impl<'ast, T: Clone> Clone for BooleanExpression<'ast, T> {
    /// A copy of the expression.
    fn clone(&self) -> (r: Self)
        ensures
            b_cloned(*self, r),
    {
        clone_b(self)
    }
}

/// `r` is a copy of the selection `s`: each element a clone of the one at
/// the same place, and a copy of the index.
pub open spec fn select_cloned<'ast, T: Clone, E: Clone>(
    s: SelectExpression<'ast, T, E>,
    r: SelectExpression<'ast, T, E>,
) -> bool {
    &&& r.array@.len() == s.array@.len()
    &&& forall|i: int| 0 <= i < s.array@.len() ==> cloned::<E>(s.array@[i], #[trigger] r.array@[i])
    &&& u_cloned(*s.index, *r.index)
}

impl<'ast, T: Clone, E: Clone> Clone for SelectExpression<'ast, T, E> {
    /// A copy of the selection.
    fn clone(&self) -> (r: Self)
        ensures
            select_cloned(*self, r),
    {
        let mut array: Vec<E> = Vec::new();
        let n = self.array.len();
        let mut i: usize = 0;
        while i < n
            invariant
                n == self.array.len(),
                i <= n,
                array@.len() == i,
                forall|k: int| 0 <= k < i ==> cloned::<E>(self.array@[k], #[trigger] array@[k]),
            decreases n - i,
        {
            let c = self.array[i].clone();
            array.push(c);
            i = i + 1;
        }
        SelectExpression { array, index: Box::new(clone_u(&self.index)) }
    }
}

impl<'ast, T: Clone, E: Clone> Clone for ConditionalExpression<'ast, T, E> {
    /// A copy of the conditional: a copy of the condition and clones of the
    /// two branches.
    fn clone(&self) -> (r: Self)
        ensures
            b_cloned(*self.condition, *r.condition),
            cloned::<E>(*self.consequence, *r.consequence),
            cloned::<E>(*self.alternative, *r.alternative),
    {
        let consequence: &E = &self.consequence;
        let alternative: &E = &self.alternative;
        ConditionalExpression {
            condition: Box::new(clone_b(&self.condition)),
            consequence: Box::new(consequence.clone()),
            alternative: Box::new(alternative.clone()),
        }
    }
}

impl<'ast, T: Clone> Clone for ZirExpression<'ast, T> {
    /// A copy of the expression.
    fn clone(&self) -> (r: Self)
        ensures
            zir_cloned(*self, r),
    {
        clone_zir(self)
    }
}

impl<'ast, T: Clone> Clone for ZirExpressionList<'ast, T> {
    /// A copy of the call.
    fn clone(&self) -> (r: Self)
        ensures
            expression_list_cloned(*self, r),
    {
        clone_expression_list(self)
    }
}

impl<'ast, T: Clone> Clone for ZirStatement<'ast, T> {
    /// A copy of the statement.
    fn clone(&self) -> (r: Self)
        ensures
            stmt_cloned(*self, r),
    {
        clone_stmt(self)
    }
}

impl<'ast, T: Clone> Clone for ZirAssemblyStatement<'ast, T> {
    /// A copy of the assembly statement.
    fn clone(&self) -> (r: Self)
        ensures
            asm_cloned(*self, r),
    {
        clone_asm(self)
    }
}

impl<'ast, T: Clone> Clone for ZirFunction<'ast, T> {
    /// A copy of the function.
    fn clone(&self) -> (r: Self)
        ensures
            function_cloned(*self, r),
    {
        clone_function(self)
    }
}

impl<'ast, T: Clone> Clone for ZirProgram<'ast, T> {
    /// A copy of the program.
    fn clone(&self) -> (r: Self)
        ensures
            function_cloned(self.main, r.main),
    {
        ZirProgram { main: clone_function(&self.main) }
    }
}

impl<'ast, E> Clone for IdentifierExpression<'ast, E> {
    /// An expression that reads the same variable.
    fn clone(&self) -> (r: Self)
        ensures
            r.id == self.id,
    {
        IdentifierExpression::new(self.id.clone())
    }
}

} // verus!
