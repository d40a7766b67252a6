//! The printed form of ZIR: each value's text as a spec function, and the
//! writer that appends that text to a `String`.
use vstd::prelude::*;
use vstd::string::*;
use crate::common::{embed_id_text, format_string_text, source_metadata_text};
use crate::field::Field;
use crate::text::{
    bool_text, dec_text, join_text, lemma_join_push, tabs_text, write_bool, write_dec, write_tabs,
};
use crate::typed::ConcreteType;
use super::identifier::identifier_text;
use super::parameter::{parameters_text, write_parameters};
use super::types::{types_text, write_types};
use super::uint::{UExpression, UExpressionInner};
use super::variable::{variable_text, variables_text, write_variables};
use super::{
    BooleanExpression, ConditionalExpression, FieldElementExpression, IdentifierExpression,
    RuntimeError, SelectExpression, ZirAssemblyStatement, ZirExpression, ZirExpressionList,
    ZirFunction, ZirProgram, ZirStatement,
};

verus! {

/// `(left op right)`.
pub open spec fn paren_text(left: Seq<char>, op: Seq<char>, right: Seq<char>) -> Seq<char> {
    "("@ + left + op + right + ")"@
}

/// The text of a field expression.
pub open spec fn fe_text<'ast, T: Field>(e: FieldElementExpression<'ast, T>) -> Seq<char>
    decreases e,
{
    match e {
        FieldElementExpression::Number(n) => n.dec_string(),
        FieldElementExpression::Identifier(v) => identifier_text(v.id),
        FieldElementExpression::Select(s) => fe_select_text(s),
        FieldElementExpression::Add(l, r) => paren_text(fe_text(*l), " + "@, fe_text(*r)),
        FieldElementExpression::Sub(l, r) => paren_text(fe_text(*l), " - "@, fe_text(*r)),
        FieldElementExpression::Mult(l, r) => paren_text(fe_text(*l), " * "@, fe_text(*r)),
        FieldElementExpression::Div(l, r) => paren_text(fe_text(*l), " / "@, fe_text(*r)),
        FieldElementExpression::Pow(l, r) => fe_text(*l) + "**"@ + u_text(*r),
        FieldElementExpression::And(l, r) => paren_text(fe_text(*l), " & "@, fe_text(*r)),
        FieldElementExpression::Or(l, r) => paren_text(fe_text(*l), " | "@, fe_text(*r)),
        FieldElementExpression::Xor(l, r) => paren_text(fe_text(*l), " ^ "@, fe_text(*r)),
        FieldElementExpression::LeftShift(l, r) => paren_text(fe_text(*l), " << "@, u_text(*r)),
        FieldElementExpression::RightShift(l, r) => paren_text(fe_text(*l), " >> "@, u_text(*r)),
        FieldElementExpression::Conditional(c) => fe_conditional_text(c),
    }
}

/// Field expressions separated by `, `.
pub open spec fn fe_list_text<'ast, T: Field>(s: Seq<FieldElementExpression<'ast, T>>) -> Seq<char>
    decreases s,
{
    if s.len() == 0 {
        Seq::empty()
    } else if s.len() == 1 {
        fe_text(s[0])
    } else {
        fe_list_text(s.drop_last()) + ", "@ + fe_text(s.last())
    }
}

/// The elements, separated by `, `, then the index in brackets.
pub open spec fn fe_select_text<'ast, T: Field>(
    s: SelectExpression<'ast, T, FieldElementExpression<'ast, T>>,
) -> Seq<char>
    decreases s,
{
    fe_list_text(s.array@) + "["@ + u_text(*s.index) + "]"@
}

/// `condition ? consequence : alternative`.
pub open spec fn fe_conditional_text<'ast, T: Field>(
    c: ConditionalExpression<'ast, T, FieldElementExpression<'ast, T>>,
) -> Seq<char>
    decreases c,
{
    b_text(*c.condition) + " ? "@ + fe_text(*c.consequence) + " : "@ + fe_text(*c.alternative)
}

/// The text of an unsigned integer expression. A quotient is printed with
/// the operator `*`.
pub open spec fn u_text<'ast, T: Field>(e: UExpression<'ast, T>) -> Seq<char>
    decreases e,
{
    match e.inner {
        UExpressionInner::Value(v) => dec_text(v as nat),
        UExpressionInner::Identifier(v) => identifier_text(v.id),
        UExpressionInner::Select(s) => u_select_text(s),
        UExpressionInner::Add(l, r) => paren_text(u_text(*l), " + "@, u_text(*r)),
        UExpressionInner::Sub(l, r) => paren_text(u_text(*l), " - "@, u_text(*r)),
        UExpressionInner::Mult(l, r) => paren_text(u_text(*l), " * "@, u_text(*r)),
        UExpressionInner::Div(l, r) => paren_text(u_text(*l), " * "@, u_text(*r)),
        UExpressionInner::Rem(l, r) => paren_text(u_text(*l), " % "@, u_text(*r)),
        UExpressionInner::Xor(l, r) => paren_text(u_text(*l), " ^ "@, u_text(*r)),
        UExpressionInner::And(l, r) => paren_text(u_text(*l), " & "@, u_text(*r)),
        UExpressionInner::Or(l, r) => paren_text(u_text(*l), " | "@, u_text(*r)),
        UExpressionInner::LeftShift(l, by) => paren_text(u_text(*l), " << "@, dec_text(by as nat)),
        UExpressionInner::RightShift(l, by) => paren_text(u_text(*l), " >> "@, dec_text(by as nat)),
        UExpressionInner::Not(x) => "!"@ + u_text(*x),
        UExpressionInner::Conditional(c) => u_conditional_text(c),
    }
}

/// Integer expressions separated by `, `.
pub open spec fn u_list_text<'ast, T: Field>(s: Seq<UExpression<'ast, T>>) -> Seq<char>
    decreases s,
{
    if s.len() == 0 {
        Seq::empty()
    } else if s.len() == 1 {
        u_text(s[0])
    } else {
        u_list_text(s.drop_last()) + ", "@ + u_text(s.last())
    }
}

/// The elements, separated by `, `, then the index in brackets.
pub open spec fn u_select_text<'ast, T: Field>(
    s: SelectExpression<'ast, T, UExpression<'ast, T>>,
) -> Seq<char>
    decreases s,
{
    u_list_text(s.array@) + "["@ + u_text(*s.index) + "]"@
}

/// `condition ? consequence : alternative`.
pub open spec fn u_conditional_text<'ast, T: Field>(
    c: ConditionalExpression<'ast, T, UExpression<'ast, T>>,
) -> Seq<char>
    decreases c,
{
    b_text(*c.condition) + " ? "@ + u_text(*c.consequence) + " : "@ + u_text(*c.alternative)
}

/// The text of a boolean expression.
pub open spec fn b_text<'ast, T: Field>(e: BooleanExpression<'ast, T>) -> Seq<char>
    decreases e,
{
    match e {
        BooleanExpression::Identifier(v) => identifier_text(v.id),
        BooleanExpression::Value(b) => bool_text(b),
        BooleanExpression::Select(s) => b_select_text(s),
        BooleanExpression::FieldLt(l, r) => paren_text(fe_text(*l), " < "@, fe_text(*r)),
        BooleanExpression::UintLt(l, r) => paren_text(u_text(*l), " < "@, u_text(*r)),
        BooleanExpression::FieldLe(l, r) => paren_text(fe_text(*l), " <= "@, fe_text(*r)),
        BooleanExpression::UintLe(l, r) => paren_text(u_text(*l), " <= "@, u_text(*r)),
        BooleanExpression::FieldEq(l, r) => paren_text(fe_text(*l), " == "@, fe_text(*r)),
        BooleanExpression::BoolEq(l, r) => paren_text(b_text(*l), " == "@, b_text(*r)),
        BooleanExpression::UintEq(l, r) => paren_text(u_text(*l), " == "@, u_text(*r)),
        BooleanExpression::Or(l, r) => paren_text(b_text(*l), " || "@, b_text(*r)),
        BooleanExpression::And(l, r) => paren_text(b_text(*l), " && "@, b_text(*r)),
        BooleanExpression::Not(x) => "!"@ + b_text(*x),
        BooleanExpression::Conditional(c) => b_conditional_text(c),
    }
}

/// Boolean expressions separated by `, `.
pub open spec fn b_list_text<'ast, T: Field>(s: Seq<BooleanExpression<'ast, T>>) -> Seq<char>
    decreases s,
{
    if s.len() == 0 {
        Seq::empty()
    } else if s.len() == 1 {
        b_text(s[0])
    } else {
        b_list_text(s.drop_last()) + ", "@ + b_text(s.last())
    }
}

/// The elements, separated by `, `, then the index in brackets.
pub open spec fn b_select_text<'ast, T: Field>(
    s: SelectExpression<'ast, T, BooleanExpression<'ast, T>>,
) -> Seq<char>
    decreases s,
{
    b_list_text(s.array@) + "["@ + u_text(*s.index) + "]"@
}

/// `condition ? consequence : alternative`.
pub open spec fn b_conditional_text<'ast, T: Field>(
    c: ConditionalExpression<'ast, T, BooleanExpression<'ast, T>>,
) -> Seq<char>
    decreases c,
{
    b_text(*c.condition) + " ? "@ + b_text(*c.consequence) + " : "@ + b_text(*c.alternative)
}

impl<'ast, T: Field> FieldElementExpression<'ast, T> {
    /// Appends the text of the expression.
    pub fn fmt(&self, f: &mut String)
        ensures
            final(f)@ == old(f)@ + fe_text(*self),
        decreases self,
    {
        match self {
            FieldElementExpression::Number(n) => {
                let s = n.to_dec_string();
                f.append(s.as_str());
            },
            FieldElementExpression::Identifier(v) => v.id.fmt(f),
            FieldElementExpression::Select(s) => s.fmt(f),
            FieldElementExpression::Add(l, r) => {
                f.append("(");
                l.fmt(f);
                f.append(" + ");
                r.fmt(f);
                f.append(")");
            },
            FieldElementExpression::Sub(l, r) => {
                f.append("(");
                l.fmt(f);
                f.append(" - ");
                r.fmt(f);
                f.append(")");
            },
            FieldElementExpression::Mult(l, r) => {
                f.append("(");
                l.fmt(f);
                f.append(" * ");
                r.fmt(f);
                f.append(")");
            },
            FieldElementExpression::Div(l, r) => {
                f.append("(");
                l.fmt(f);
                f.append(" / ");
                r.fmt(f);
                f.append(")");
            },
            FieldElementExpression::Pow(l, r) => {
                l.fmt(f);
                f.append("**");
                r.fmt(f);
            },
            FieldElementExpression::And(l, r) => {
                f.append("(");
                l.fmt(f);
                f.append(" & ");
                r.fmt(f);
                f.append(")");
            },
            FieldElementExpression::Or(l, r) => {
                f.append("(");
                l.fmt(f);
                f.append(" | ");
                r.fmt(f);
                f.append(")");
            },
            FieldElementExpression::Xor(l, r) => {
                f.append("(");
                l.fmt(f);
                f.append(" ^ ");
                r.fmt(f);
                f.append(")");
            },
            FieldElementExpression::LeftShift(l, r) => {
                f.append("(");
                l.fmt(f);
                f.append(" << ");
                r.fmt(f);
                f.append(")");
            },
            FieldElementExpression::RightShift(l, r) => {
                f.append("(");
                l.fmt(f);
                f.append(" >> ");
                r.fmt(f);
                f.append(")");
            },
            FieldElementExpression::Conditional(c) => c.fmt(f),
        }
    }

    /// The text of the expression.
    pub fn to_string(&self) -> (s: String)
        ensures
            s@ == fe_text(*self),
    {
        let mut s = String::new();
        self.fmt(&mut s);
        s
    }
}

/// Appends field expressions, separated by `, `.
pub fn write_fe_list<'ast, T: Field>(f: &mut String, items: &Vec<FieldElementExpression<'ast, T>>)
    ensures
        final(f)@ == old(f)@ + fe_list_text(items@),
    decreases items,
{
    let n = items.len();
    let mut i: usize = 0;
    while i < n
        invariant
            n == items.len(),
            i <= n,
            f@ == old(f)@ + fe_list_text(items@.take(i as int)),
        decreases n - i,
    {
        if i > 0 {
            f.append(", ");
        }
        let item = &items[i];
        proof {
            assert(decreases_to!(*items => items@));
            assert(decreases_to!(items@ => items@[i as int]));
        }
        item.fmt(f);
        assert(items@.take(i + 1).drop_last() == items@.take(i as int));
        i = i + 1;
    }
    assert(items@.take(n as int) == items@);
}

impl<'ast, T: Field> SelectExpression<'ast, T, FieldElementExpression<'ast, T>> {
    /// Appends the text of the selection.
    pub fn fmt(&self, f: &mut String)
        ensures
            final(f)@ == old(f)@ + fe_select_text(*self),
        decreases self,
    {
        write_fe_list(f, &self.array);
        f.append("[");
        self.index.fmt(f);
        f.append("]");
    }
}

impl<'ast, T: Field> ConditionalExpression<'ast, T, FieldElementExpression<'ast, T>> {
    /// Appends the text of the conditional.
    pub fn fmt(&self, f: &mut String)
        ensures
            final(f)@ == old(f)@ + fe_conditional_text(*self),
        decreases self,
    {
        self.condition.fmt(f);
        f.append(" ? ");
        self.consequence.fmt(f);
        f.append(" : ");
        self.alternative.fmt(f);
    }
}

impl<'ast, T: Field> UExpression<'ast, T> {
    /// Appends the text of the expression.
    pub fn fmt(&self, f: &mut String)
        ensures
            final(f)@ == old(f)@ + u_text(*self),
        decreases self,
    {
        match &self.inner {
            UExpressionInner::Value(v) => write_dec(f, *v),
            UExpressionInner::Identifier(v) => v.id.fmt(f),
            UExpressionInner::Select(s) => s.fmt(f),
            UExpressionInner::Add(l, r) => {
                f.append("(");
                l.fmt(f);
                f.append(" + ");
                r.fmt(f);
                f.append(")");
            },
            UExpressionInner::Sub(l, r) => {
                f.append("(");
                l.fmt(f);
                f.append(" - ");
                r.fmt(f);
                f.append(")");
            },
            UExpressionInner::Mult(l, r) => {
                f.append("(");
                l.fmt(f);
                f.append(" * ");
                r.fmt(f);
                f.append(")");
            },
            UExpressionInner::Div(l, r) => {
                f.append("(");
                l.fmt(f);
                f.append(" * ");
                r.fmt(f);
                f.append(")");
            },
            UExpressionInner::Rem(l, r) => {
                f.append("(");
                l.fmt(f);
                f.append(" % ");
                r.fmt(f);
                f.append(")");
            },
            UExpressionInner::Xor(l, r) => {
                f.append("(");
                l.fmt(f);
                f.append(" ^ ");
                r.fmt(f);
                f.append(")");
            },
            UExpressionInner::And(l, r) => {
                f.append("(");
                l.fmt(f);
                f.append(" & ");
                r.fmt(f);
                f.append(")");
            },
            UExpressionInner::Or(l, r) => {
                f.append("(");
                l.fmt(f);
                f.append(" | ");
                r.fmt(f);
                f.append(")");
            },
            UExpressionInner::LeftShift(l, by) => {
                f.append("(");
                l.fmt(f);
                f.append(" << ");
                write_dec(f, *by as u128);
                f.append(")");
            },
            UExpressionInner::RightShift(l, by) => {
                f.append("(");
                l.fmt(f);
                f.append(" >> ");
                write_dec(f, *by as u128);
                f.append(")");
            },
            UExpressionInner::Not(x) => {
                f.append("!");
                x.fmt(f);
            },
            UExpressionInner::Conditional(c) => c.fmt(f),
        }
    }

    /// The text of the expression.
    pub fn to_string(&self) -> (s: String)
        ensures
            s@ == u_text(*self),
    {
        let mut s = String::new();
        self.fmt(&mut s);
        s
    }
}

/// Appends integer expressions, separated by `, `.
pub fn write_u_list<'ast, T: Field>(f: &mut String, items: &Vec<UExpression<'ast, T>>)
    ensures
        final(f)@ == old(f)@ + u_list_text(items@),
    decreases items,
{
    let n = items.len();
    let mut i: usize = 0;
    while i < n
        invariant
            n == items.len(),
            i <= n,
            f@ == old(f)@ + u_list_text(items@.take(i as int)),
        decreases n - i,
    {
        if i > 0 {
            f.append(", ");
        }
        let item = &items[i];
        proof {
            assert(decreases_to!(*items => items@));
            assert(decreases_to!(items@ => items@[i as int]));
        }
        item.fmt(f);
        assert(items@.take(i + 1).drop_last() == items@.take(i as int));
        i = i + 1;
    }
    assert(items@.take(n as int) == items@);
}

impl<'ast, T: Field> SelectExpression<'ast, T, UExpression<'ast, T>> {
    /// Appends the text of the selection.
    pub fn fmt(&self, f: &mut String)
        ensures
            final(f)@ == old(f)@ + u_select_text(*self),
        decreases self,
    {
        write_u_list(f, &self.array);
        f.append("[");
        self.index.fmt(f);
        f.append("]");
    }
}

impl<'ast, T: Field> ConditionalExpression<'ast, T, UExpression<'ast, T>> {
    /// Appends the text of the conditional.
    pub fn fmt(&self, f: &mut String)
        ensures
            final(f)@ == old(f)@ + u_conditional_text(*self),
        decreases self,
    {
        self.condition.fmt(f);
        f.append(" ? ");
        self.consequence.fmt(f);
        f.append(" : ");
        self.alternative.fmt(f);
    }
}

impl<'ast, T: Field> BooleanExpression<'ast, T> {
    /// Appends the text of the expression.
    pub fn fmt(&self, f: &mut String)
        ensures
            final(f)@ == old(f)@ + b_text(*self),
        decreases self,
    {
        match self {
            BooleanExpression::Identifier(v) => v.id.fmt(f),
            BooleanExpression::Value(b) => write_bool(f, *b),
            BooleanExpression::Select(s) => s.fmt(f),
            BooleanExpression::FieldLt(l, r) => {
                f.append("(");
                l.fmt(f);
                f.append(" < ");
                r.fmt(f);
                f.append(")");
            },
            BooleanExpression::UintLt(l, r) => {
                f.append("(");
                l.fmt(f);
                f.append(" < ");
                r.fmt(f);
                f.append(")");
            },
            BooleanExpression::FieldLe(l, r) => {
                f.append("(");
                l.fmt(f);
                f.append(" <= ");
                r.fmt(f);
                f.append(")");
            },
            BooleanExpression::UintLe(l, r) => {
                f.append("(");
                l.fmt(f);
                f.append(" <= ");
                r.fmt(f);
                f.append(")");
            },
            BooleanExpression::FieldEq(l, r) => {
                f.append("(");
                l.fmt(f);
                f.append(" == ");
                r.fmt(f);
                f.append(")");
            },
            BooleanExpression::BoolEq(l, r) => {
                f.append("(");
                l.fmt(f);
                f.append(" == ");
                r.fmt(f);
                f.append(")");
            },
            BooleanExpression::UintEq(l, r) => {
                f.append("(");
                l.fmt(f);
                f.append(" == ");
                r.fmt(f);
                f.append(")");
            },
            BooleanExpression::Or(l, r) => {
                f.append("(");
                l.fmt(f);
                f.append(" || ");
                r.fmt(f);
                f.append(")");
            },
            BooleanExpression::And(l, r) => {
                f.append("(");
                l.fmt(f);
                f.append(" && ");
                r.fmt(f);
                f.append(")");
            },
            BooleanExpression::Not(x) => {
                f.append("!");
                x.fmt(f);
            },
            BooleanExpression::Conditional(c) => c.fmt(f),
        }
    }

    /// The text of the expression.
    pub fn to_string(&self) -> (s: String)
        ensures
            s@ == b_text(*self),
    {
        let mut s = String::new();
        self.fmt(&mut s);
        s
    }
}

/// Appends boolean expressions, separated by `, `.
pub fn write_b_list<'ast, T: Field>(f: &mut String, items: &Vec<BooleanExpression<'ast, T>>)
    ensures
        final(f)@ == old(f)@ + b_list_text(items@),
    decreases items,
{
    let n = items.len();
    let mut i: usize = 0;
    while i < n
        invariant
            n == items.len(),
            i <= n,
            f@ == old(f)@ + b_list_text(items@.take(i as int)),
        decreases n - i,
    {
        if i > 0 {
            f.append(", ");
        }
        let item = &items[i];
        proof {
            assert(decreases_to!(*items => items@));
            assert(decreases_to!(items@ => items@[i as int]));
        }
        item.fmt(f);
        assert(items@.take(i + 1).drop_last() == items@.take(i as int));
        i = i + 1;
    }
    assert(items@.take(n as int) == items@);
}

impl<'ast, T: Field> SelectExpression<'ast, T, BooleanExpression<'ast, T>> {
    /// Appends the text of the selection.
    pub fn fmt(&self, f: &mut String)
        ensures
            final(f)@ == old(f)@ + b_select_text(*self),
        decreases self,
    {
        write_b_list(f, &self.array);
        f.append("[");
        self.index.fmt(f);
        f.append("]");
    }
}

impl<'ast, T: Field> ConditionalExpression<'ast, T, BooleanExpression<'ast, T>> {
    /// Appends the text of the conditional.
    pub fn fmt(&self, f: &mut String)
        ensures
            final(f)@ == old(f)@ + b_conditional_text(*self),
        decreases self,
    {
        self.condition.fmt(f);
        f.append(" ? ");
        self.consequence.fmt(f);
        f.append(" : ");
        self.alternative.fmt(f);
    }
}

impl<'ast, E> IdentifierExpression<'ast, E> {
    /// Appends the name of the variable.
    pub fn fmt(&self, f: &mut String)
        ensures
            final(f)@ == old(f)@ + identifier_text(self.id),
    {
        self.id.fmt(f);
    }

    /// The name of the variable.
    pub fn to_string(&self) -> (s: String)
        ensures
            s@ == identifier_text(self.id),
    {
        let mut s = String::new();
        self.fmt(&mut s);
        s
    }
}

/// The text of a typed expression: that of the expression it wraps.
pub open spec fn zir_expr_text<'ast, T: Field>(e: ZirExpression<'ast, T>) -> Seq<char> {
    match e {
        ZirExpression::Boolean(e) => b_text(e),
        ZirExpression::FieldElement(e) => fe_text(e),
        ZirExpression::Uint(e) => u_text(e),
    }
}

/// Typed expressions separated by `, `.
pub open spec fn zir_exprs_text<'ast, T: Field>(s: Seq<ZirExpression<'ast, T>>) -> Seq<char> {
    join_text(s.map_values(|e: ZirExpression<'ast, T>| zir_expr_text(e)), ", "@)
}

impl<'ast, T: Field> ZirExpression<'ast, T> {
    /// Appends the text of the expression.
    pub fn fmt(&self, f: &mut String)
        ensures
            final(f)@ == old(f)@ + zir_expr_text(*self),
    {
        match self {
            ZirExpression::Boolean(e) => e.fmt(f),
            ZirExpression::FieldElement(e) => e.fmt(f),
            ZirExpression::Uint(e) => e.fmt(f),
        }
    }

    /// The text of the expression.
    pub fn to_string(&self) -> (s: String)
        ensures
            s@ == zir_expr_text(*self),
    {
        let mut s = String::new();
        self.fmt(&mut s);
        s
    }
}

/// Appends typed expressions, separated by `, `.
pub fn write_zir_exprs<'ast, T: Field>(f: &mut String, items: &Vec<ZirExpression<'ast, T>>)
    ensures
        final(f)@ == old(f)@ + zir_exprs_text(items@),
{
    let n = items.len();
    let ghost parts = items@.map_values(|e: ZirExpression<'ast, T>| zir_expr_text(e));
    let mut i: usize = 0;
    while i < n
        invariant
            n == items.len(),
            i <= n,
            parts == items@.map_values(|e: ZirExpression<'ast, T>| zir_expr_text(e)),
            f@ == old(f)@ + join_text(parts.take(i as int), ", "@),
        decreases n - i,
    {
        proof {
            lemma_join_push(parts.take(i as int), ", "@, parts[i as int]);
            assert(parts.take(i + 1) == parts.take(i as int).push(parts[i as int]));
        }
        if i > 0 {
            f.append(", ");
        }
        items[i].fmt(f);
        i = i + 1;
    }
    assert(parts.take(n as int) == parts);
}

/// `::<g1, g2, ...>` for a non-empty list of generic arguments, nothing for
/// an empty one.
pub open spec fn generics_text(g: Seq<u32>) -> Seq<char> {
    if g.len() == 0 {
        Seq::empty()
    } else {
        "::<"@ + join_text(g.map_values(|x: u32| dec_text(x as nat)), ", "@) + ">"@
    }
}

/// The name of the built-in function, its generic arguments, and its
/// arguments in parentheses.
pub open spec fn expression_list_text<'ast, T: Field>(l: ZirExpressionList<'ast, T>) -> Seq<char> {
    match l {
        ZirExpressionList::EmbedCall(embed, generics, args) => embed_id_text(embed) + generics_text(
            generics@,
        ) + "("@ + zir_exprs_text(args@) + ")"@,
    }
}

/// Appends the generic arguments of a call.
fn write_generics(f: &mut String, g: &Vec<u32>)
    ensures
        final(f)@ == old(f)@ + generics_text(g@),
{
    let n = g.len();
    if n == 0 {
        return;
    }
    f.append("::<");
    let ghost parts = g@.map_values(|x: u32| dec_text(x as nat));
    let mut i: usize = 0;
    while i < n
        invariant
            n == g.len(),
            i <= n,
            parts == g@.map_values(|x: u32| dec_text(x as nat)),
            f@ == old(f)@ + "::<"@ + join_text(parts.take(i as int), ", "@),
        decreases n - i,
    {
        proof {
            lemma_join_push(parts.take(i as int), ", "@, parts[i as int]);
            assert(parts.take(i + 1) == parts.take(i as int).push(parts[i as int]));
        }
        if i > 0 {
            f.append(", ");
        }
        write_dec(f, g[i] as u128);
        i = i + 1;
    }
    assert(parts.take(n as int) == parts);
    f.append(">");
}

impl<'ast, T: Field> ZirExpressionList<'ast, T> {
    /// Appends the text of the call.
    pub fn fmt(&self, f: &mut String)
        ensures
            final(f)@ == old(f)@ + expression_list_text(*self),
    {
        match self {
            ZirExpressionList::EmbedCall(embed, generics, args) => {
                f.append(embed.id());
                write_generics(f, generics);
                f.append("(");
                write_zir_exprs(f, args);
                f.append(")");
            },
        }
    }

    /// The text of the call.
    pub fn to_string(&self) -> (s: String)
        ensures
            s@ == expression_list_text(*self),
    {
        let mut s = String::new();
        self.fmt(&mut s);
        s
    }
}

/// The text of a runtime error.
pub open spec fn runtime_error_text(e: RuntimeError) -> Seq<char> {
    match e {
        RuntimeError::SourceAssertion(m) => source_metadata_text(m),
        RuntimeError::SelectRangeCheck => "Range check on array access"@,
        RuntimeError::DivisionByZero => "Division by zero"@,
        RuntimeError::IncompleteDynamicRange => "Dynamic comparison is incomplete"@,
    }
}

impl RuntimeError {
    /// Appends the text of the error.
    pub fn fmt(&self, f: &mut String)
        ensures
            final(f)@ == old(f)@ + runtime_error_text(*self),
    {
        match self {
            RuntimeError::SourceAssertion(m) => m.fmt(f),
            RuntimeError::SelectRangeCheck => f.append("Range check on array access"),
            RuntimeError::DivisionByZero => f.append("Division by zero"),
            RuntimeError::IncompleteDynamicRange => f.append("Dynamic comparison is incomplete"),
        }
    }

    /// The text of the error.
    pub fn to_string(&self) -> (s: String)
        ensures
            s@ == runtime_error_text(*self),
    {
        let mut s = String::new();
        self.fmt(&mut s);
        s
    }
}

/// The expressions of each `log` argument, in brackets, separated by `, `.
pub open spec fn log_arguments_text<'ast, T: Field>(
    args: Seq<(ConcreteType, Vec<ZirExpression<'ast, T>>)>,
) -> Seq<char> {
    join_text(
        args.map_values(
            |a: (ConcreteType, Vec<ZirExpression<'ast, T>>)| "["@ + zir_exprs_text(a.1@) + "]"@,
        ),
        ", "@,
    )
}

/// Appends the arguments of a `log` statement.
fn write_log_arguments<'ast, T: Field>(
    f: &mut String,
    args: &Vec<(ConcreteType, Vec<ZirExpression<'ast, T>>)>,
)
    ensures
        final(f)@ == old(f)@ + log_arguments_text(args@),
{
    let n = args.len();
    let ghost parts = args@.map_values(
        |a: (ConcreteType, Vec<ZirExpression<'ast, T>>)| "["@ + zir_exprs_text(a.1@) + "]"@,
    );
    let mut i: usize = 0;
    while i < n
        invariant
            n == args.len(),
            i <= n,
            parts == args@.map_values(
                |a: (ConcreteType, Vec<ZirExpression<'ast, T>>)| "["@ + zir_exprs_text(a.1@) + "]"@,
            ),
            f@ == old(f)@ + join_text(parts.take(i as int), ", "@),
        decreases n - i,
    {
        proof {
            lemma_join_push(parts.take(i as int), ", "@, parts[i as int]);
            assert(parts.take(i + 1) == parts.take(i as int).push(parts[i as int]));
        }
        if i > 0 {
            f.append(", ");
        }
        f.append("[");
        write_zir_exprs(f, &args[i].1);
        f.append("]");
        i = i + 1;
    }
    assert(parts.take(n as int) == parts);
}

/// The text of a statement whose lines start with `indent`.
pub open spec fn stmt_text<'ast, T: Field>(s: ZirStatement<'ast, T>, indent: Seq<char>) -> Seq<char>
    decreases s,
{
    indent + match s {
        ZirStatement::Return(es) => "return"@ + (if es@.len() == 0 {
            Seq::empty()
        } else {
            " "@ + zir_exprs_text(es@)
        }) + ";"@,
        ZirStatement::Definition(lhs, rhs) => variable_text(lhs) + " = "@ + zir_expr_text(rhs)
            + ";"@,
        ZirStatement::IfElse(c, cons, alt) => "if "@ + b_text(c) + " {\n"@ + block_text(
            cons@,
            indent + "\t"@,
        ) + indent + "} else {\n"@ + block_text(alt@, indent + "\t"@) + indent + "}"@,
        ZirStatement::Assertion(e, err) => "assert("@ + b_text(e) + match err {
            RuntimeError::SourceAssertion(m) => ", \""@ + source_metadata_text(m) + "\");"@,
            _ => "); // "@ + runtime_error_text(err),
        },
        ZirStatement::MultipleDefinition(ids, rhs) => variables_text(ids@) + " = "@
            + expression_list_text(rhs) + ";"@,
        ZirStatement::Log(l, args) => "log(\""@ + format_string_text(l) + "\"), "@
            + log_arguments_text(args@) + ");"@,
        ZirStatement::Assembly(ss) => "asm {\n"@ + asm_block_text(ss@, indent + "\t"@) + indent
            + "}"@,
    }
}

/// Statements, each followed by a line break.
pub open spec fn block_text<'ast, T: Field>(ss: Seq<ZirStatement<'ast, T>>, indent: Seq<char>) -> Seq<
    char,
>
    decreases ss,
{
    if ss.len() == 0 {
        Seq::empty()
    } else {
        block_text(ss.drop_last(), indent) + stmt_text(ss.last(), indent) + "\n"@
    }
}

/// Assembly statements, each on a line of its own that starts with `indent`.
pub open spec fn asm_block_text<'ast, T: Field>(
    ss: Seq<ZirAssemblyStatement<'ast, T>>,
    indent: Seq<char>,
) -> Seq<char>
    decreases ss,
{
    if ss.len() == 0 {
        Seq::empty()
    } else {
        asm_block_text(ss.drop_last(), indent) + indent + asm_text(ss.last()) + "\n"@
    }
}

/// The text of an assembly statement.
pub open spec fn asm_text<'ast, T: Field>(a: ZirAssemblyStatement<'ast, T>) -> Seq<char>
    decreases a,
{
    match a {
        ZirAssemblyStatement::Assignment(lhs, rhs) => variables_text(lhs@) + " <-- "@
            + function_text(rhs) + ";"@,
        ZirAssemblyStatement::Constraint(l, r, _) => fe_text(l) + " === "@ + fe_text(r) + ";"@,
    }
}

/// The parameters, the output types, then the body, one statement per line,
/// indented by one tab.
pub open spec fn function_text<'ast, T: Field>(fun: ZirFunction<'ast, T>) -> Seq<char>
    decreases fun,
{
    "("@ + parameters_text(fun.arguments@) + ") -> ("@ + types_text(fun.signature.outputs@)
        + ") {\n"@ + block_text(fun.statements@, "\t"@) + "}"@
}

/// The text of a statement at nesting depth `depth`: its lines start with
/// `depth` tabs.
pub open spec fn statement_text<'ast, T: Field>(s: ZirStatement<'ast, T>, depth: nat) -> Seq<char> {
    stmt_text(s, tabs_text(depth))
}

impl<'ast, T: Field> ZirStatement<'ast, T> {
    /// Appends the text of the statement, with its lines starting with `indent`.
    fn fmt_with_indent(&self, f: &mut String, indent: &String)
        ensures
            final(f)@ == old(f)@ + stmt_text(*self, indent@),
        decreases self,
    {
        f.append(indent.as_str());
        match self {
            ZirStatement::Return(es) => {
                f.append("return");
                if es.len() > 0 {
                    f.append(" ");
                    write_zir_exprs(f, es);
                }
                f.append(";");
            },
            ZirStatement::Definition(lhs, rhs) => {
                lhs.fmt(f);
                f.append(" = ");
                rhs.fmt(f);
                f.append(";");
            },
            ZirStatement::IfElse(c, cons, alt) => {
                let mut inner = indent.clone();
                inner.append("\t");
                f.append("if ");
                c.fmt(f);
                f.append(" {\n");
                write_block(f, cons, &inner);
                f.append(indent.as_str());
                f.append("} else {\n");
                write_block(f, alt, &inner);
                f.append(indent.as_str());
                f.append("}");
            },
            ZirStatement::Assertion(e, err) => {
                f.append("assert(");
                e.fmt(f);
                match err {
                    RuntimeError::SourceAssertion(m) => {
                        f.append(", \"");
                        m.fmt(f);
                        f.append("\");");
                    },
                    _ => {
                        f.append("); // ");
                        err.fmt(f);
                    },
                }
            },
            ZirStatement::MultipleDefinition(ids, rhs) => {
                write_variables(f, ids);
                f.append(" = ");
                rhs.fmt(f);
                f.append(";");
            },
            ZirStatement::Log(l, args) => {
                f.append("log(\"");
                l.fmt(f);
                f.append("\"), ");
                write_log_arguments(f, args);
                f.append(");");
            },
            ZirStatement::Assembly(ss) => {
                let mut inner = indent.clone();
                inner.append("\t");
                f.append("asm {\n");
                write_asm_block(f, ss, &inner);
                f.append(indent.as_str());
                f.append("}");
            },
        }
    }

    /// Appends the text of the statement at nesting depth `depth`.
    pub fn fmt_indented(&self, f: &mut String, depth: usize)
        ensures
            final(f)@ == old(f)@ + statement_text(*self, depth as nat),
    {
        let mut indent = String::new();
        write_tabs(&mut indent, depth);
        self.fmt_with_indent(f, &indent);
    }

    /// Appends the text of the statement at depth zero.
    pub fn fmt(&self, f: &mut String)
        ensures
            final(f)@ == old(f)@ + statement_text(*self, 0),
    {
        self.fmt_indented(f, 0);
    }

    /// The text of the statement at depth zero.
    pub fn to_string(&self) -> (s: String)
        ensures
            s@ == statement_text(*self, 0),
    {
        let mut s = String::new();
        self.fmt(&mut s);
        s
    }
}

/// Appends statements, each followed by a line break.
fn write_block<'ast, T: Field>(f: &mut String, ss: &Vec<ZirStatement<'ast, T>>, indent: &String)
    ensures
        final(f)@ == old(f)@ + block_text(ss@, indent@),
    decreases ss,
{
    let n = ss.len();
    let mut i: usize = 0;
    while i < n
        invariant
            n == ss.len(),
            i <= n,
            f@ == old(f)@ + block_text(ss@.take(i as int), indent@),
        decreases n - i,
    {
        let s = &ss[i];
        proof {
            assert(decreases_to!(*ss => ss@));
            assert(decreases_to!(ss@ => ss@[i as int]));
        }
        s.fmt_with_indent(f, indent);
        f.append("\n");
        assert(ss@.take(i + 1).drop_last() == ss@.take(i as int));
        i = i + 1;
    }
    assert(ss@.take(n as int) == ss@);
}

/// Appends assembly statements, each on a line of its own that starts with `indent`.
fn write_asm_block<'ast, T: Field>(
    f: &mut String,
    ss: &Vec<ZirAssemblyStatement<'ast, T>>,
    indent: &String,
)
    ensures
        final(f)@ == old(f)@ + asm_block_text(ss@, indent@),
    decreases ss,
{
    let n = ss.len();
    let mut i: usize = 0;
    while i < n
        invariant
            n == ss.len(),
            i <= n,
            f@ == old(f)@ + asm_block_text(ss@.take(i as int), indent@),
        decreases n - i,
    {
        let s = &ss[i];
        proof {
            assert(decreases_to!(*ss => ss@));
            assert(decreases_to!(ss@ => ss@[i as int]));
        }
        f.append(indent.as_str());
        s.fmt(f);
        f.append("\n");
        assert(ss@.take(i + 1).drop_last() == ss@.take(i as int));
        i = i + 1;
    }
    assert(ss@.take(n as int) == ss@);
}

impl<'ast, T: Field> ZirAssemblyStatement<'ast, T> {
    /// Appends the text of the assembly statement.
    pub fn fmt(&self, f: &mut String)
        ensures
            final(f)@ == old(f)@ + asm_text(*self),
        decreases self,
    {
        match self {
            ZirAssemblyStatement::Assignment(lhs, rhs) => {
                write_variables(f, lhs);
                f.append(" <-- ");
                rhs.fmt(f);
                f.append(";");
            },
            ZirAssemblyStatement::Constraint(l, r, _) => {
                l.fmt(f);
                f.append(" === ");
                r.fmt(f);
                f.append(";");
            },
        }
    }

    /// The text of the assembly statement.
    pub fn to_string(&self) -> (s: String)
        ensures
            s@ == asm_text(*self),
    {
        let mut s = String::new();
        self.fmt(&mut s);
        s
    }
}

impl<'ast, T: Field> ZirFunction<'ast, T> {
    /// Appends the text of the function.
    pub fn fmt(&self, f: &mut String)
        ensures
            final(f)@ == old(f)@ + function_text(*self),
        decreases self,
    {
        f.append("(");
        write_parameters(f, &self.arguments);
        f.append(") -> (");
        write_types(f, &self.signature.outputs);
        f.append(") {\n");
        let indent = String::from_str("\t");
        write_block(f, &self.statements, &indent);
        f.append("}");
    }

    /// The text of the function.
    pub fn to_string(&self) -> (s: String)
        ensures
            s@ == function_text(*self),
    {
        let mut s = String::new();
        self.fmt(&mut s);
        s
    }
}

impl<'ast, T: Field> ZirProgram<'ast, T> {
    /// Appends the text of the program: that of its main function.
    pub fn fmt(&self, f: &mut String)
        ensures
            final(f)@ == old(f)@ + function_text(self.main),
    {
        self.main.fmt(f);
    }

    /// The text of the program: that of its main function.
    pub fn to_string(&self) -> (s: String)
        ensures
            s@ == function_text(self.main),
    {
        let mut s = String::new();
        self.fmt(&mut s);
        s
    }
}

} // verus!
