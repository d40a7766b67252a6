//! Typed variables.
use vstd::prelude::*;
use vstd::string::*;
use crate::text::{join_text, lemma_join_push};
use super::identifier::{identifier_text, Identifier};
use super::types::{type_text, Type};

verus! {

/// A variable: a name and a type.
#[derive(Debug, PartialEq, Eq, Hash)]
pub struct Variable<'ast> {
    pub id: Identifier<'ast>,
    pub ty: Type,
}

/// The type, a space, then the name.
pub open spec fn variable_text(v: Variable) -> Seq<char> {
    type_text(v.ty) + " "@ + identifier_text(v.id)
}

/// A list of variables, separated by `, `.
pub open spec fn variables_text(vs: Seq<Variable>) -> Seq<char> {
    join_text(vs.map_values(|v: Variable| variable_text(v)), ", "@)
}

impl<'ast> Clone for Variable<'ast> {
    /// An equal variable.
    fn clone(&self) -> (r: Self)
        ensures
            r == *self,
    {
        Variable { id: self.id.clone(), ty: self.ty }
    }
}

/// A copy of a list of variables.
pub fn clone_variables<'ast>(vs: &Vec<Variable<'ast>>) -> (r: Vec<Variable<'ast>>)
    ensures
        r@ == vs@,
{
    let mut r: Vec<Variable<'ast>> = Vec::new();
    let n = vs.len();
    let mut i: usize = 0;
    while i < n
        invariant
            n == vs.len(),
            i <= n,
            r@ == vs@.take(i as int),
        decreases n - i,
    {
        r.push(vs[i].clone());
        assert(r@ == vs@.take(i + 1));
        i = i + 1;
    }
    assert(vs@.take(n as int) == vs@);
    r
}

impl<'ast> Variable<'ast> {
    /// A variable of the given name and type.
    pub fn new(id: Identifier<'ast>, ty: Type) -> (v: Self)
        ensures
            v.id == id,
            v.ty == ty,
    {
        Variable { id, ty }
    }

    /// Appends the printed form of the variable.
    pub fn fmt(&self, f: &mut String)
        ensures
            final(f)@ == old(f)@ + variable_text(*self),
    {
        self.ty.fmt(f);
        f.append(" ");
        self.id.fmt(f);
    }
}

/// Appends the variables in `vs`, separated by `, `.
pub fn write_variables(f: &mut String, vs: &Vec<Variable>)
    ensures
        final(f)@ == old(f)@ + variables_text(vs@),
{
    let n = vs.len();
    let ghost parts = vs@.map_values(|v: Variable| variable_text(v));
    let mut i: usize = 0;
    while i < n
        invariant
            n == vs.len(),
            i <= n,
            parts == vs@.map_values(|v: Variable| variable_text(v)),
            f@ == old(f)@ + join_text(parts.take(i as int), ", "@),
        decreases n - i,
    {
        proof {
            lemma_join_push(parts.take(i as int), ", "@, parts[i as int]);
            assert(parts.take(i + 1) == parts.take(i as int).push(parts[i as int]));
        }
        if i > 0 {
            f.append(", ");
        }
        vs[i].fmt(f);
        i = i + 1;
    }
    assert(parts.take(n as int) == parts);
}

} // verus!
