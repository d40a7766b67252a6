//! Expressions of unsigned integer type.
use vstd::prelude::*;
use super::types::UBitwidth;
use super::{ConditionalExpression, IdentifierExpression, SelectExpression};

verus! {

/// An expression of type `u8`, `u16`, `u32` or `u64`: its width and its form.
#[derive(Debug, PartialEq, Eq, Hash)]
pub struct UExpression<'ast, T> {
    pub bitwidth: UBitwidth,
    pub inner: UExpressionInner<'ast, T>,
}

/// The form of an unsigned integer expression.
#[derive(Debug, PartialEq, Eq, Hash)]
pub enum UExpressionInner<'ast, T> {
    Identifier(IdentifierExpression<'ast, UExpression<'ast, T>>),
    Value(u128),
    Add(Box<UExpression<'ast, T>>, Box<UExpression<'ast, T>>),
    Sub(Box<UExpression<'ast, T>>, Box<UExpression<'ast, T>>),
    Mult(Box<UExpression<'ast, T>>, Box<UExpression<'ast, T>>),
    Div(Box<UExpression<'ast, T>>, Box<UExpression<'ast, T>>),
    Rem(Box<UExpression<'ast, T>>, Box<UExpression<'ast, T>>),
    Xor(Box<UExpression<'ast, T>>, Box<UExpression<'ast, T>>),
    And(Box<UExpression<'ast, T>>, Box<UExpression<'ast, T>>),
    Or(Box<UExpression<'ast, T>>, Box<UExpression<'ast, T>>),
    LeftShift(Box<UExpression<'ast, T>>, u32),
    RightShift(Box<UExpression<'ast, T>>, u32),
    Not(Box<UExpression<'ast, T>>),
    Select(SelectExpression<'ast, T, UExpression<'ast, T>>),
    Conditional(ConditionalExpression<'ast, T, UExpression<'ast, T>>),
}

impl<'ast, T> UExpressionInner<'ast, T> {
    /// The expression of this form and the given width.
    pub fn annotate(self, bitwidth: UBitwidth) -> (r: UExpression<'ast, T>)
        ensures
            r.bitwidth == bitwidth,
            r.inner == self,
    {
        UExpression { bitwidth, inner: self }
    }
}

} // verus!
