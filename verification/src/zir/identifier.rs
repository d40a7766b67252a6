//! Names of ZIR variables.
use vstd::prelude::*;
use vstd::string::*;
use crate::text::{dec_text, write_dec};

verus! {

/// A name written in the source program, or a component of one.
#[derive(Debug, PartialEq, Eq, Hash)]
pub enum SourceIdentifier<'ast> {
    /// A name as written.
    Basic(&'ast str),
    /// An element of an array variable that was broken into scalars.
    Select(Box<SourceIdentifier<'ast>>, u32),
    /// A member of a struct or tuple variable that was broken into scalars.
    Element(Box<SourceIdentifier<'ast>>, u32),
}

/// The name, then `~index` for an array element or `.index` for a member.
pub open spec fn source_identifier_text(i: SourceIdentifier) -> Seq<char>
    decreases i,
{
    match i {
        SourceIdentifier::Basic(s) => s@,
        SourceIdentifier::Select(inner, n) => source_identifier_text(*inner) + "~"@ + dec_text(
            n as nat,
        ),
        SourceIdentifier::Element(inner, n) => source_identifier_text(*inner) + "."@ + dec_text(
            n as nat,
        ),
    }
}

impl<'ast> Clone for SourceIdentifier<'ast> {
    /// An equal name.
    fn clone(&self) -> (r: Self)
        ensures
            r == *self,
        decreases self,
    {
        match self {
            SourceIdentifier::Basic(s) => SourceIdentifier::Basic(*s),
            SourceIdentifier::Select(inner, n) => SourceIdentifier::Select(
                Box::new((**inner).clone()),
                *n,
            ),
            SourceIdentifier::Element(inner, n) => SourceIdentifier::Element(
                Box::new((**inner).clone()),
                *n,
            ),
        }
    }
}

impl<'ast> SourceIdentifier<'ast> {
    /// Appends the printed form of the name.
    pub fn fmt(&self, f: &mut String)
        ensures
            final(f)@ == old(f)@ + source_identifier_text(*self),
        decreases self,
    {
        match self {
            SourceIdentifier::Basic(s) => f.append(*s),
            SourceIdentifier::Select(inner, n) => {
                inner.fmt(f);
                f.append("~");
                write_dec(f, *n as u128);
            },
            SourceIdentifier::Element(inner, n) => {
                inner.fmt(f);
                f.append(".");
                write_dec(f, *n as u128);
            },
        }
    }
}

/// The name of a ZIR variable: one from the source program, or one that the
/// compiler introduced, made unique by a number.
#[derive(Debug, PartialEq, Eq, Hash)]
pub enum Identifier<'ast> {
    Source(SourceIdentifier<'ast>),
    Internal(&'ast str, usize),
}

/// A source name as written; an internal name as `name_number`.
pub open spec fn identifier_text(i: Identifier) -> Seq<char> {
    match i {
        Identifier::Source(s) => source_identifier_text(s),
        Identifier::Internal(name, n) => name@ + "_"@ + dec_text(n as nat),
    }
}

impl<'ast> Clone for Identifier<'ast> {
    /// An equal name.
    fn clone(&self) -> (r: Self)
        ensures
            r == *self,
    {
        match self {
            Identifier::Source(s) => Identifier::Source(s.clone()),
            Identifier::Internal(name, n) => Identifier::Internal(*name, *n),
        }
    }
}

impl<'ast> Identifier<'ast> {
    /// Appends the printed form of the name.
    pub fn fmt(&self, f: &mut String)
        ensures
            final(f)@ == old(f)@ + identifier_text(*self),
    {
        match self {
            Identifier::Source(s) => s.fmt(f),
            Identifier::Internal(name, n) => {
                f.append(*name);
                f.append("_");
                write_dec(f, *n as u128);
            },
        }
    }
}

} // verus!
