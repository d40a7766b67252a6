//! The types of ZIR values.
use vstd::prelude::*;
use vstd::string::*;
use crate::text::{dec_text, join_text, lemma_join_push, write_dec};

verus! {

/// The width of an unsigned integer type.
#[derive(Debug, Clone, Copy, PartialEq, Eq, Hash, Structural)]
pub enum UBitwidth {
    B8,
    B16,
    B32,
    B64,
}

/// The number of bits of a width.
pub open spec fn bitwidth_bits(b: UBitwidth) -> nat {
    match b {
        UBitwidth::B8 => 8,
        UBitwidth::B16 => 16,
        UBitwidth::B32 => 32,
        UBitwidth::B64 => 64,
    }
}

impl UBitwidth {
    /// The number of bits of the width.
    pub fn to_usize(self) -> (r: usize)
        ensures
            r == bitwidth_bits(self),
    {
        match self {
            UBitwidth::B8 => 8,
            UBitwidth::B16 => 16,
            UBitwidth::B32 => 32,
            UBitwidth::B64 => 64,
        }
    }
}

/// The type of a ZIR expression.
#[derive(Debug, Clone, Copy, PartialEq, Eq, Hash, Structural)]
pub enum Type {
    FieldElement,
    Boolean,
    Uint(UBitwidth),
}

/// `field`, `bool`, or `u` followed by the number of bits.
pub open spec fn type_text(t: Type) -> Seq<char> {
    match t {
        Type::FieldElement => "field"@,
        Type::Boolean => "bool"@,
        Type::Uint(b) => "u"@ + dec_text(bitwidth_bits(b)),
    }
}

impl Type {
    /// Appends the printed form of the type.
    pub fn fmt(&self, f: &mut String)
        ensures
            final(f)@ == old(f)@ + type_text(*self),
    {
        match self {
            Type::FieldElement => f.append("field"),
            Type::Boolean => f.append("bool"),
            Type::Uint(b) => {
                f.append("u");
                let n = b.to_usize();
                write_dec(f, n as u128);
            },
        }
    }
}

/// The types of the inputs and outputs of a function.
#[derive(Debug, PartialEq, Eq, Hash)]
pub struct Signature {
    pub inputs: Vec<Type>,
    pub outputs: Vec<Type>,
}

/// A copy of a list of types.
pub fn clone_types(ts: &Vec<Type>) -> (r: Vec<Type>)
    ensures
        r@ == ts@,
{
    let mut r: Vec<Type> = Vec::new();
    let n = ts.len();
    let mut i: usize = 0;
    while i < n
        invariant
            n == ts.len(),
            i <= n,
            r@ == ts@.take(i as int),
        decreases n - i,
    {
        r.push(ts[i]);
        assert(r@ == ts@.take(i + 1));
        i = i + 1;
    }
    assert(ts@.take(n as int) == ts@);
    r
}

impl Clone for Signature {
    /// A signature with the same input and output types.
    fn clone(&self) -> (r: Self)
        ensures
            r.inputs@ == self.inputs@,
            r.outputs@ == self.outputs@,
    {
        Signature { inputs: clone_types(&self.inputs), outputs: clone_types(&self.outputs) }
    }
}

/// A list of types, separated by `, `.
pub open spec fn types_text(ts: Seq<Type>) -> Seq<char> {
    join_text(ts.map_values(|t: Type| type_text(t)), ", "@)
}

/// Appends the types in `ts`, separated by `, `.
pub fn write_types(f: &mut String, ts: &Vec<Type>)
    ensures
        final(f)@ == old(f)@ + types_text(ts@),
{
    let n = ts.len();
    let ghost parts = ts@.map_values(|t: Type| type_text(t));
    let mut i: usize = 0;
    while i < n
        invariant
            n == ts.len(),
            i <= n,
            parts == ts@.map_values(|t: Type| type_text(t)),
            f@ == old(f)@ + join_text(parts.take(i as int), ", "@),
        decreases n - i,
    {
        proof {
            lemma_join_push(parts.take(i as int), ", "@, parts[i as int]);
            assert(parts.take(i + 1) == parts.take(i as int).push(parts[i as int]));
        }
        if i > 0 {
            f.append(", ");
        }
        ts[i].fmt(f);
        i = i + 1;
    }
    assert(parts.take(n as int) == parts);
}

} // verus!
