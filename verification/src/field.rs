//! What the syntax tree needs of a field element: its decimal numeral.
use vstd::prelude::*;
use crate::text::{dec_text, write_dec};

verus! {

/// An element of the prime field that a program computes over.
///
/// The syntax tree holds elements as values of a type that implements this
/// trait; printing writes an element as its decimal numeral.
pub trait Field: Sized {
    /// The decimal numeral of the element.
    spec fn dec_string(&self) -> Seq<char>;

    /// Computes the decimal numeral of the element.
    fn to_dec_string(&self) -> (s: String)
        ensures
            s@ == self.dec_string(),
    ;
}

/// Field elements below 2^128, held as their canonical integer value.
impl Field for u128 {
    open spec fn dec_string(&self) -> Seq<char> {
        dec_text(*self as nat)
    }

    fn to_dec_string(&self) -> (s: String) {
        let mut s = String::new();
        write_dec(&mut s, *self);
        s
    }
}

} // verus!
