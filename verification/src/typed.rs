//! The concrete types of the typed intermediate representation, which `log`
//! statements keep to describe the values they print.
use vstd::prelude::*;
use crate::zir::types::UBitwidth;

verus! {

/// A type whose array sizes are all known.
#[derive(Debug, PartialEq, Eq, Hash)]
pub enum ConcreteType {
    FieldElement,
    Boolean,
    Uint(UBitwidth),
    Array(Box<ConcreteType>, u32),
}

impl Clone for ConcreteType {
    /// An equal type.
    fn clone(&self) -> (r: Self)
        ensures
            r == *self,
        decreases self,
    {
        match self {
            ConcreteType::FieldElement => ConcreteType::FieldElement,
            ConcreteType::Boolean => ConcreteType::Boolean,
            ConcreteType::Uint(b) => ConcreteType::Uint(*b),
            ConcreteType::Array(inner, n) => ConcreteType::Array(Box::new((**inner).clone()), *n),
        }
    }
}

} // verus!
