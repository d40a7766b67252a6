//! Properties that tie the operations on ZIR expressions together.
use vstd::prelude::*;
use vstd::std_specs::convert::FromSpec;
use crate::field::Field;
use crate::common::embed_id_text;
use crate::text::{dec_text, join_text, lemma_join_push, tabs_text};
use super::display::{
    b_list_text, b_select_text, b_text, fe_select_text, u_select_text, expression_list_text, fe_list_text, fe_text, statement_text, u_list_text,
    u_text, zir_exprs_text,
};
use crate::common::FlatEmbed;
use super::identifier::Identifier;
use super::types::{Type, UBitwidth};
use super::uint::{UExpression, UExpressionInner};
use super::{
    conjuncts, linear, BooleanExpression, Conditional, Constant, Expr, FieldElementExpression, Id,
    IntoType, Select, SelectExpression, Typed, ZirExpression, ZirExpressionList, ZirStatement,
};

verus! {

/// Wrapping an expression into a typed expression keeps its type.
pub proof fn lemma_wrapping_keeps_type<'ast, T>(
    b: BooleanExpression<'ast, T>,
    fe: FieldElementExpression<'ast, T>,
    u: UExpression<'ast, T>,
)
    ensures
        ZirExpression::Boolean(b).type_of() == b.type_of(),
        ZirExpression::FieldElement(fe).type_of() == fe.type_of(),
        ZirExpression::Uint(u).type_of() == u.type_of(),
        ZirExpression::Boolean(b).type_of() == Type::Boolean,
        ZirExpression::FieldElement(fe).type_of() == Type::FieldElement,
{
}

/// Wrapping an expression keeps whether it is a constant.
pub proof fn lemma_wrapping_keeps_constancy<'ast, T>(
    b: BooleanExpression<'ast, T>,
    fe: FieldElementExpression<'ast, T>,
    u: UExpression<'ast, T>,
)
    ensures
        ZirExpression::Boolean(b).constant() == b.constant(),
        ZirExpression::FieldElement(fe).constant() == fe.constant(),
        ZirExpression::Uint(u).constant() == u.constant(),
{
}

/// The type annotation of an expression, turned into a type, is the type of
/// the expression.
pub proof fn lemma_annotation_is_type<'ast, T>(
    b: BooleanExpression<'ast, T>,
    fe: FieldElementExpression<'ast, T>,
    u: UExpression<'ast, T>,
)
    ensures
        <BooleanExpression<'ast, T> as Expr<'ast, T>>::ty_of(&b).type_for() == b.type_of(),
        <FieldElementExpression<'ast, T> as Expr<'ast, T>>::ty_of(&fe).type_for() == fe.type_of(),
        <UExpression<'ast, T> as Expr<'ast, T>>::ty_of(&u).type_for() == u.type_of(),
{
}

/// Replacing the form of an expression by the form it has gives back the
/// expression.
pub proof fn lemma_with_own_inner<'ast, T>(
    b: BooleanExpression<'ast, T>,
    fe: FieldElementExpression<'ast, T>,
    u: UExpression<'ast, T>,
)
    ensures
        <BooleanExpression<'ast, T> as Expr<'ast, T>>::with_inner(
            &b,
            <BooleanExpression<'ast, T> as Expr<'ast, T>>::inner_of(&b),
        ) == b,
        <FieldElementExpression<'ast, T> as Expr<'ast, T>>::with_inner(
            &fe,
            <FieldElementExpression<'ast, T> as Expr<'ast, T>>::inner_of(&fe),
        ) == fe,
        <UExpression<'ast, T> as Expr<'ast, T>>::with_inner(
            &u,
            <UExpression<'ast, T> as Expr<'ast, T>>::inner_of(&u),
        ) == u,
{
}

/// A conditional has the type of its consequence.
pub proof fn lemma_conditional_keeps_type<'ast, T>(
    c: BooleanExpression<'ast, T>,
    b1: BooleanExpression<'ast, T>,
    b2: BooleanExpression<'ast, T>,
    fe1: FieldElementExpression<'ast, T>,
    fe2: FieldElementExpression<'ast, T>,
    u1: UExpression<'ast, T>,
    u2: UExpression<'ast, T>,
)
    ensures
        <BooleanExpression<'ast, T> as Conditional<'ast, T>>::conditional_of(c, b1, b2).type_of()
            == b1.type_of(),
        <FieldElementExpression<'ast, T> as Conditional<'ast, T>>::conditional_of(
            c,
            fe1,
            fe2,
        ).type_of() == fe1.type_of(),
        <UExpression<'ast, T> as Conditional<'ast, T>>::conditional_of(c, u1, u2).type_of()
            == u1.type_of(),
{
}

/// A selection from a non-empty array of integer expressions has the type
/// of the array's first element.
pub proof fn lemma_select_keeps_type<'ast, T>(
    r: UExpression<'ast, T>,
    array: Seq<UExpression<'ast, T>>,
    index: UExpression<'ast, T>,
)
    requires
        array.len() > 0,
        <UExpression<'ast, T> as Select<'ast, T>>::is_select_of(r, array, index),
    ensures
        r.type_of() == array[0].type_of(),
{
}

/// Taking the field expression out of a typed expression gives back the
/// expression that was wrapped, and likewise for the other two kinds.
pub proof fn lemma_unwrapping_inverts_wrapping<'ast, T>(
    b: BooleanExpression<'ast, T>,
    fe: FieldElementExpression<'ast, T>,
    u: UExpression<'ast, T>,
    rb: BooleanExpression<'ast, T>,
    rfe: FieldElementExpression<'ast, T>,
    ru: UExpression<'ast, T>,
)
    requires
        <ZirExpression<'ast, T> as FromSpec<BooleanExpression<'ast, T>>>::from_spec(b)
            == ZirExpression::Boolean(rb),
        <ZirExpression<'ast, T> as FromSpec<FieldElementExpression<'ast, T>>>::from_spec(fe)
            == ZirExpression::FieldElement(rfe),
        <ZirExpression<'ast, T> as FromSpec<UExpression<'ast, T>>>::from_spec(u)
            == ZirExpression::Uint(ru),
    ensures
        rb == b,
        rfe == fe,
        ru == u,
{
}

/// A constant field expression is linear.
pub proof fn lemma_constant_is_linear<'ast, T>(e: FieldElementExpression<'ast, T>)
    requires
        e.constant(),
    ensures
        linear(e),
{
}

/// A variable is linear and is not a constant, whatever its kind.
pub proof fn lemma_identifier_is_linear_not_constant<'ast, T>(id: Identifier<'ast>, bitwidth: UBitwidth)
    ensures
        linear(<FieldElementExpression<'ast, T> as Id<'ast, T>>::identifier_of(id)),
        !<FieldElementExpression<'ast, T> as Id<'ast, T>>::identifier_of(id).constant(),
        !<BooleanExpression<'ast, T> as Id<'ast, T>>::identifier_of(id).constant(),
        !(UExpression {
            bitwidth,
            inner: <UExpression<'ast, T> as Id<'ast, T>>::identifier_of(id),
        }).constant(),
{
}

/// An expression that is not a conjunction is its own only conjunct; the
/// conjuncts of `left && right` are those of `right` followed by those of
/// `left`.
pub proof fn lemma_conjuncts_shape<'ast, T>(e: BooleanExpression<'ast, T>)
    ensures
        !(e is And) ==> conjuncts(e) == seq![e],
        e matches BooleanExpression::And(l, r) ==> conjuncts(e) == conjuncts(*r) + conjuncts(*l),
{
}

/// A statement printed at nesting depth `depth` starts with `depth` tabs.
pub proof fn lemma_statement_starts_with_indentation<'ast, T: Field>(
    s: ZirStatement<'ast, T>,
    depth: nat,
)
    ensures
        tabs_text(depth).is_prefix_of(statement_text(s, depth)),
{
    let t = statement_text(s, depth);
    assert(t.subrange(0, tabs_text(depth).len() as int) =~= tabs_text(depth));
}

/// The conjuncts of an expression are jointly equivalent to it: under any
/// evaluation of boolean expressions in which `left && right` holds exactly
/// when both operands hold, the expression holds exactly when every one of
/// its conjuncts (what its conjunction iterator yields) holds.
pub proof fn lemma_conjuncts_equivalent<'ast, T>(
    eval: spec_fn(BooleanExpression<'ast, T>) -> bool,
    e: BooleanExpression<'ast, T>,
)
    requires
        forall|x: BooleanExpression<'ast, T>|
            x is And ==> #[trigger] eval(x) == (eval(*x->And_0) && eval(*x->And_1)),
    ensures
        eval(e) <==> forall|i: int| 0 <= i < conjuncts(e).len() ==> eval(#[trigger] conjuncts(e)[i]),
    decreases e,
{
    match e {
        BooleanExpression::And(left, right) => {
            lemma_conjuncts_equivalent(eval, *left);
            lemma_conjuncts_equivalent(eval, *right);
            let cr = conjuncts(*right);
            let cl = conjuncts(*left);
            let c = cr + cl;
            assert(conjuncts(e) == c);
            assert(eval(e) == (eval(*left) && eval(*right)));
            if eval(e) {
                assert forall|i: int| 0 <= i < c.len() implies eval(#[trigger] c[i]) by {
                    if i < cr.len() {
                        assert(c[i] == cr[i]);
                    } else {
                        assert(c[i] == cl[i - cr.len()]);
                    }
                }
            }
            if forall|i: int| 0 <= i < c.len() ==> eval(#[trigger] c[i]) {
                assert forall|i: int| 0 <= i < cr.len() implies eval(#[trigger] cr[i]) by {
                    assert(c[i] == cr[i]);
                }
                assert forall|i: int| 0 <= i < cl.len() implies eval(#[trigger] cl[i]) by {
                    assert(c[i + cr.len()] == cl[i]);
                }
            }
        },
        _ => {
            assert(conjuncts(e) == seq![e]);
            if forall|i: int| 0 <= i < conjuncts(e).len() ==> eval(#[trigger] conjuncts(e)[i]) {
                assert(eval(conjuncts(e)[0]));
            }
        },
    }
}

/// The numerals of a list of generic arguments.
pub open spec fn generic_numerals(g: Seq<u32>) -> Seq<Seq<char>> {
    g.map_values(|x: u32| dec_text(x as nat))
}

/// A list of one part joins to that part.
pub proof fn lemma_join_single(part: Seq<char>, sep: Seq<char>)
    ensures
        join_text(seq![part], sep) == part,
{
    lemma_join_push(Seq::empty(), sep, part);
    assert(Seq::<Seq<char>>::empty().push(part) =~= seq![part]);
}

/// A call prints as the built-in's name; then, exactly when there are generic
/// arguments, `::<`, their numerals separated by `, `, and `>`; then the
/// arguments, separated by `, `, in parentheses.
pub proof fn lemma_embed_call_text<'ast, T: Field>(
    embed: FlatEmbed,
    g: Vec<u32>,
    args: Vec<ZirExpression<'ast, T>>,
)
    ensures
        g@.len() == 0 ==> expression_list_text(ZirExpressionList::EmbedCall(embed, g, args))
            == embed_id_text(embed) + "("@ + zir_exprs_text(args@) + ")"@,
        g@.len() > 0 ==> expression_list_text(ZirExpressionList::EmbedCall(embed, g, args))
            == embed_id_text(embed) + "::<"@ + join_text(generic_numerals(g@), ", "@) + ">"@ + "("@
            + zir_exprs_text(args@) + ")"@,
        g@.len() == 1 ==> expression_list_text(ZirExpressionList::EmbedCall(embed, g, args))
            == embed_id_text(embed) + "::<"@ + dec_text(g@[0] as nat) + ">"@ + "("@
            + zir_exprs_text(args@) + ")"@,
{
    let t = expression_list_text(ZirExpressionList::EmbedCall(embed, g, args));
    if g@.len() == 0 {
        assert(t =~= embed_id_text(embed) + "("@ + zir_exprs_text(args@) + ")"@);
    }
    if g@.len() == 1 {
        lemma_join_single(dec_text(g@[0] as nat), ", "@);
        assert(generic_numerals(g@) =~= seq![dec_text(g@[0] as nat)]);
    }
}

/// The texts of field expressions, one per expression.
pub open spec fn fe_texts<'ast, T: Field>(s: Seq<FieldElementExpression<'ast, T>>) -> Seq<Seq<char>> {
    s.map_values(|e: FieldElementExpression<'ast, T>| fe_text(e))
}

/// The texts of integer expressions, one per expression.
pub open spec fn u_texts<'ast, T: Field>(s: Seq<UExpression<'ast, T>>) -> Seq<Seq<char>> {
    s.map_values(|e: UExpression<'ast, T>| u_text(e))
}

/// The texts of boolean expressions, one per expression.
pub open spec fn b_texts<'ast, T: Field>(s: Seq<BooleanExpression<'ast, T>>) -> Seq<Seq<char>> {
    s.map_values(|e: BooleanExpression<'ast, T>| b_text(e))
}

/// Field expressions separated by `, ` are the join of their texts.
pub proof fn lemma_fe_list_is_join<'ast, T: Field>(s: Seq<FieldElementExpression<'ast, T>>)
    ensures
        fe_list_text(s) == join_text(fe_texts(s), ", "@),
    decreases s.len(),
{
    let parts = fe_texts(s);
    if s.len() > 0 {
        lemma_fe_list_is_join(s.drop_last());
        assert(parts.drop_last() =~= fe_texts(s.drop_last()));
        assert(parts =~= parts.drop_last().push(parts.last()));
        lemma_join_push(parts.drop_last(), ", "@, parts.last());
    } else {
        assert(parts =~= Seq::<Seq<char>>::empty());
    }
}

/// Integer expressions separated by `, ` are the join of their texts.
pub proof fn lemma_u_list_is_join<'ast, T: Field>(s: Seq<UExpression<'ast, T>>)
    ensures
        u_list_text(s) == join_text(u_texts(s), ", "@),
    decreases s.len(),
{
    let parts = u_texts(s);
    if s.len() > 0 {
        lemma_u_list_is_join(s.drop_last());
        assert(parts.drop_last() =~= u_texts(s.drop_last()));
        assert(parts =~= parts.drop_last().push(parts.last()));
        lemma_join_push(parts.drop_last(), ", "@, parts.last());
    } else {
        assert(parts =~= Seq::<Seq<char>>::empty());
    }
}

/// Boolean expressions separated by `, ` are the join of their texts.
pub proof fn lemma_b_list_is_join<'ast, T: Field>(s: Seq<BooleanExpression<'ast, T>>)
    ensures
        b_list_text(s) == join_text(b_texts(s), ", "@),
    decreases s.len(),
{
    let parts = b_texts(s);
    if s.len() > 0 {
        lemma_b_list_is_join(s.drop_last());
        assert(parts.drop_last() =~= b_texts(s.drop_last()));
        assert(parts =~= parts.drop_last().push(parts.last()));
        lemma_join_push(parts.drop_last(), ", "@, parts.last());
    } else {
        assert(parts =~= Seq::<Seq<char>>::empty());
    }
}

/// A selection prints every element of its array, in order and separated by
/// `, `, then its index in brackets; for one element, just that element. This
/// holds for field, integer and boolean selections alike.
pub proof fn lemma_select_text<'ast, T: Field>(
    sf: SelectExpression<'ast, T, FieldElementExpression<'ast, T>>,
    su: SelectExpression<'ast, T, UExpression<'ast, T>>,
    sb: SelectExpression<'ast, T, BooleanExpression<'ast, T>>,
    bitwidth: UBitwidth,
)
    ensures
        fe_text(FieldElementExpression::Select(sf)) == join_text(
            fe_texts(sf.array@),
            ", "@,
        ) + "["@ + u_text(*sf.index) + "]"@,
        u_text(UExpression { bitwidth, inner: UExpressionInner::Select(su) }) == join_text(
            u_texts(su.array@),
            ", "@,
        ) + "["@ + u_text(*su.index) + "]"@,
        b_text(BooleanExpression::Select(sb)) == join_text(
            b_texts(sb.array@),
            ", "@,
        ) + "["@ + u_text(*sb.index) + "]"@,
        sb.array@.len() == 1 ==> b_text(BooleanExpression::Select(sb)) == b_text(sb.array@[0])
            + "["@ + u_text(*sb.index) + "]"@,
        sb.array@.len() == 2 ==> b_text(BooleanExpression::Select(sb)) == b_text(sb.array@[0])
            + ", "@ + b_text(sb.array@[1]) + "["@ + u_text(*sb.index) + "]"@,
        sf.array@.len() == 2 ==> fe_text(FieldElementExpression::Select(sf)) == fe_text(
            sf.array@[0],
        ) + ", "@ + fe_text(sf.array@[1]) + "["@ + u_text(*sf.index) + "]"@,
{
    lemma_fe_list_is_join(sf.array@);
    lemma_u_list_is_join(su.array@);
    lemma_b_list_is_join(sb.array@);
    assert(fe_text(FieldElementExpression::Select(sf)) == fe_select_text(sf));
    assert(u_text(UExpression { bitwidth, inner: UExpressionInner::Select(su) }) == u_select_text(su));
    assert(b_text(BooleanExpression::Select(sb)) == b_select_text(sb));
    let pb = b_texts(sb.array@);
    let pf = fe_texts(sf.array@);
    if sb.array@.len() == 1 {
        assert(pb =~= seq![b_text(sb.array@[0])]);
        lemma_join_single(b_text(sb.array@[0]), ", "@);
    }
    if sb.array@.len() == 2 {
        assert(pb =~= seq![b_text(sb.array@[0])].push(b_text(sb.array@[1])));
        lemma_join_single(b_text(sb.array@[0]), ", "@);
        lemma_join_push(seq![b_text(sb.array@[0])], ", "@, b_text(sb.array@[1]));
    }
    if sf.array@.len() == 2 {
        assert(pf =~= seq![fe_text(sf.array@[0])].push(fe_text(sf.array@[1])));
        lemma_join_single(fe_text(sf.array@[0]), ", "@);
        lemma_join_push(seq![fe_text(sf.array@[0])], ", "@, fe_text(sf.array@[1]));
    }
}

/// Linearity, case by case: numbers and variables are linear; a sum or a
/// difference is linear exactly when both operands are; a product is linear
/// exactly when one factor is a number; no other form is linear. In
/// particular a sum or difference with a product of two non-numbers as an
/// operand is not linear.
pub proof fn lemma_linearity_cases<'ast, T>(
    n: T,
    id: Identifier<'ast>,
    l: FieldElementExpression<'ast, T>,
    r: FieldElementExpression<'ast, T>,
    x: FieldElementExpression<'ast, T>,
    y: FieldElementExpression<'ast, T>,
)
    ensures
        linear(FieldElementExpression::<'ast, T>::Number(n)),
        linear(<FieldElementExpression<'ast, T> as Id<'ast, T>>::identifier_of(id)),
        linear(FieldElementExpression::Add(Box::new(l), Box::new(r))) == (linear(l) && linear(r)),
        linear(FieldElementExpression::Sub(Box::new(l), Box::new(r))) == (linear(l) && linear(r)),
        linear(FieldElementExpression::Mult(Box::new(l), Box::new(r))) == (l is Number
            || r is Number),
        !linear(FieldElementExpression::Div(Box::new(l), Box::new(r))),
        !(x is Number) && !(y is Number) ==> !linear(
            FieldElementExpression::Sub(
                Box::new(l),
                Box::new(FieldElementExpression::Mult(Box::new(x), Box::new(y))),
            ),
        ) && !linear(
            FieldElementExpression::Add(
                Box::new(FieldElementExpression::Mult(Box::new(x), Box::new(y))),
                Box::new(r),
            ),
        ),
{
    let m = FieldElementExpression::Mult(Box::new(x), Box::new(y));
    assert(linear(m) == (x is Number || y is Number));
}

/// Building a conditional keeps the condition and puts the consequence and
/// the alternative in their places, whatever their form; an integer
/// conditional takes the width of its consequence.
pub proof fn lemma_conditional_parts<'ast, T>(
    c: BooleanExpression<'ast, T>,
    fx: FieldElementExpression<'ast, T>,
    fy: FieldElementExpression<'ast, T>,
    bx: BooleanExpression<'ast, T>,
    by: BooleanExpression<'ast, T>,
    ux: UExpression<'ast, T>,
    uy: UExpression<'ast, T>,
)
    ensures
        <FieldElementExpression<'ast, T> as Conditional<'ast, T>>::conditional_of(c, fx, fy) matches FieldElementExpression::Conditional(ce)
            && *ce.condition == c && *ce.consequence == fx && *ce.alternative == fy,
        <BooleanExpression<'ast, T> as Conditional<'ast, T>>::conditional_of(c, bx, by) matches BooleanExpression::Conditional(ce)
            && *ce.condition == c && *ce.consequence == bx && *ce.alternative == by,
        <UExpression<'ast, T> as Conditional<'ast, T>>::conditional_of(c, ux, uy).bitwidth
            == ux.bitwidth,
        <UExpression<'ast, T> as Conditional<'ast, T>>::conditional_of(c, ux, uy).inner matches UExpressionInner::Conditional(ce)
            && *ce.condition == c && *ce.consequence == ux && *ce.alternative == uy,
{
}

/// Building a selection keeps the array and the index, whatever their form.
pub proof fn lemma_select_parts<'ast, T>(
    rf: FieldElementExpression<'ast, T>,
    af: Seq<FieldElementExpression<'ast, T>>,
    rb: BooleanExpression<'ast, T>,
    ab: Seq<BooleanExpression<'ast, T>>,
    ru: UExpression<'ast, T>,
    au: Seq<UExpression<'ast, T>>,
    index: UExpression<'ast, T>,
)
    ensures
        <FieldElementExpression<'ast, T> as Select<'ast, T>>::is_select_of(rf, af, index) ==> (rf matches FieldElementExpression::Select(s)
            && s.array@ == af && *s.index == index),
        <BooleanExpression<'ast, T> as Select<'ast, T>>::is_select_of(rb, ab, index) ==> (rb matches BooleanExpression::Select(s)
            && s.array@ == ab && *s.index == index),
        <UExpression<'ast, T> as Select<'ast, T>>::is_select_of(ru, au, index) ==> (ru.inner matches UExpressionInner::Select(s)
            && s.array@ == au && *s.index == index),
{
}

/// The constants are exactly the literals: every number, every boolean value
/// (`true` as well as `false`) and every integer value, and nothing else,
/// also when wrapped in a typed expression.
pub proof fn lemma_constants_are_literals<'ast, T>(
    n: T,
    v: bool,
    w: u128,
    bitwidth: UBitwidth,
    fe: FieldElementExpression<'ast, T>,
    b: BooleanExpression<'ast, T>,
    u: UExpression<'ast, T>,
)
    ensures
        FieldElementExpression::<'ast, T>::Number(n).constant(),
        BooleanExpression::<'ast, T>::Value(v).constant(),
        BooleanExpression::<'ast, T>::Value(true).constant(),
        BooleanExpression::<'ast, T>::Value(false).constant(),
        (UExpression::<'ast, T> { bitwidth, inner: UExpressionInner::Value(w) }).constant(),
        ZirExpression::Boolean(BooleanExpression::<'ast, T>::Value(v)).constant(),
        ZirExpression::FieldElement(FieldElementExpression::<'ast, T>::Number(n)).constant(),
        fe.constant() <==> fe is Number,
        b.constant() <==> b is Value,
        u.constant() <==> u.inner is Value,
{
}

} // verus!
