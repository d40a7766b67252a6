//! Parameters of ZIR functions.
use vstd::prelude::*;
use vstd::string::*;
use crate::text::{join_text, lemma_join_push};
use super::variable::{variable_text, Variable};

verus! {

/// A function parameter: a variable, and whether its value is private.
#[derive(Debug, PartialEq, Eq, Hash)]
pub struct Parameter<'ast> {
    pub id: Variable<'ast>,
    pub private: bool,
}

/// `private ` for a private parameter, then the variable.
pub open spec fn parameter_text(p: Parameter) -> Seq<char> {
    (if p.private {
        "private "@
    } else {
        Seq::empty()
    }) + variable_text(p.id)
}

/// A list of parameters, separated by `, `.
pub open spec fn parameters_text(ps: Seq<Parameter>) -> Seq<char> {
    join_text(ps.map_values(|p: Parameter| parameter_text(p)), ", "@)
}

impl<'ast> Clone for Parameter<'ast> {
    /// An equal parameter.
    fn clone(&self) -> (r: Self)
        ensures
            r == *self,
    {
        Parameter { id: self.id.clone(), private: self.private }
    }
}

/// A copy of a list of parameters.
pub fn clone_parameters<'ast>(ps: &Vec<Parameter<'ast>>) -> (r: Vec<Parameter<'ast>>)
    ensures
        r@ == ps@,
{
    let mut r: Vec<Parameter<'ast>> = Vec::new();
    let n = ps.len();
    let mut i: usize = 0;
    while i < n
        invariant
            n == ps.len(),
            i <= n,
            r@ == ps@.take(i as int),
        decreases n - i,
    {
        r.push(ps[i].clone());
        assert(r@ == ps@.take(i + 1));
        i = i + 1;
    }
    assert(ps@.take(n as int) == ps@);
    r
}

impl<'ast> Parameter<'ast> {
    /// Appends the printed form of the parameter.
    pub fn fmt(&self, f: &mut String)
        ensures
            final(f)@ == old(f)@ + parameter_text(*self),
    {
        if self.private {
            f.append("private ");
        }
        self.id.fmt(f);
    }
}

/// Appends the parameters in `ps`, separated by `, `.
pub fn write_parameters(f: &mut String, ps: &Vec<Parameter>)
    ensures
        final(f)@ == old(f)@ + parameters_text(ps@),
{
    let n = ps.len();
    let ghost parts = ps@.map_values(|p: Parameter| parameter_text(p));
    let mut i: usize = 0;
    while i < n
        invariant
            n == ps.len(),
            i <= n,
            parts == ps@.map_values(|p: Parameter| parameter_text(p)),
            f@ == old(f)@ + join_text(parts.take(i as int), ", "@),
        decreases n - i,
    {
        proof {
            lemma_join_push(parts.take(i as int), ", "@, parts[i as int]);
            assert(parts.take(i + 1) == parts.take(i as int).push(parts[i as int]));
        }
        if i > 0 {
            f.append(", ");
        }
        ps[i].fmt(f);
        i = i + 1;
    }
    assert(parts.take(n as int) == parts);
}

} // verus!
