//! How the printed form of a statement changes with its nesting depth: one
//! level deeper puts one more tab at the start of every line.
use vstd::prelude::*;
use crate::field::Field;
use crate::text::tabs_text;
use super::display::{asm_block_text, asm_text, b_text, block_text, statement_text, stmt_text};
use super::{ZirAssemblyStatement, ZirStatement};

verus! {

/// `t` with a tab inserted after each line break.
pub open spec fn indent_lines(t: Seq<char>) -> Seq<char>
    decreases t.len(),
{
    if t.len() == 0 {
        Seq::empty()
    } else {
        (if t[0] == '\n' {
            seq!['\n', '\t']
        } else {
            seq![t[0]]
        }) + indent_lines(t.drop_first())
    }
}

/// `t` holds no line break.
pub open spec fn single_line(t: Seq<char>) -> bool {
    forall|i: int| 0 <= i < t.len() ==> t[i] != '\n'
}

/// The statement's text has line breaks only where the statement itself
/// puts them: between the lines of nested blocks. Expressions, variables,
/// format strings and metadata print on one line, and assembly blocks hold
/// only statements that print on one line (constraints).
pub open spec fn reindentable<'ast, T: Field>(s: ZirStatement<'ast, T>) -> bool
    decreases s,
{
    match s {
        ZirStatement::IfElse(c, cons, alt) => single_line(b_text(c)) && block_reindentable(cons@)
            && block_reindentable(alt@),
        ZirStatement::Assembly(ss) => asm_block_single_lines(ss@),
        _ => single_line(stmt_text(s, Seq::empty())),
    }
}

/// Every statement of the block is reindentable.
pub open spec fn block_reindentable<'ast, T: Field>(ss: Seq<ZirStatement<'ast, T>>) -> bool
    decreases ss,
{
    ss.len() > 0 ==> block_reindentable(ss.drop_last()) && reindentable(ss.last())
}

/// Every assembly statement of the block prints on one line.
pub open spec fn asm_block_single_lines<'ast, T: Field>(ss: Seq<ZirAssemblyStatement<'ast, T>>) -> bool
    decreases ss.len(),
{
    ss.len() > 0 ==> asm_block_single_lines(ss.drop_last()) && single_line(asm_text(ss.last()))
}

proof fn lemma_indent_concat(a: Seq<char>, b: Seq<char>)
    ensures
        indent_lines(a + b) == indent_lines(a) + indent_lines(b),
    decreases a.len(),
{
    if a.len() == 0 {
        assert(a + b =~= b);
        assert(indent_lines(a) + indent_lines(b) =~= indent_lines(b));
    } else {
        lemma_indent_concat(a.drop_first(), b);
        assert((a + b).drop_first() =~= a.drop_first() + b);
        assert((a + b)[0] == a[0]);
        let head = if a[0] == '\n' {
            seq!['\n', '\t']
        } else {
            seq![a[0]]
        };
        assert(indent_lines(a + b) == head + indent_lines((a + b).drop_first()));
        assert(head + (indent_lines(a.drop_first()) + indent_lines(b)) =~= (head + indent_lines(
            a.drop_first(),
        )) + indent_lines(b));
    }
}

proof fn lemma_indent_single_line(t: Seq<char>)
    requires
        single_line(t),
    ensures
        indent_lines(t) == t,
    decreases t.len(),
{
    if t.len() > 0 {
        assert(single_line(t.drop_first())) by {
            assert forall|i: int| 0 <= i < t.drop_first().len() implies t.drop_first()[i]
                != '\n' by {
                assert(t.drop_first()[i] == t[i + 1]);
            }
        }
        lemma_indent_single_line(t.drop_first());
        assert(seq![t[0]] + t.drop_first() =~= t);
    }
}

proof fn lemma_single_line_concat(a: Seq<char>, b: Seq<char>)
    requires
        single_line(a),
        single_line(b),
    ensures
        single_line(a + b),
{
    assert forall|i: int| 0 <= i < (a + b).len() implies (a + b)[i] != '\n' by {
        if i < a.len() {
            assert((a + b)[i] == a[i]);
        } else {
            assert((a + b)[i] == b[i - a.len()]);
        }
    }
}

/// A line followed by a line break gets a tab after the break.
proof fn lemma_indent_line(t: Seq<char>)
    requires
        single_line(t),
    ensures
        indent_lines(t + "\n"@) == t + "\n"@ + "\t"@,
{
    reveal_strlit("\n");
    reveal_strlit("\t");
    assert("\n"@ =~= seq!['\n']);
    assert("\t"@ =~= seq!['\t']);
    lemma_indent_concat(t, "\n"@);
    lemma_indent_single_line(t);
    assert(indent_lines(seq!['\n']) == seq!['\n', '\t'] + indent_lines(seq!['\n'].drop_first()));
    assert(seq!['\n'].drop_first() =~= Seq::<char>::empty());
    assert(indent_lines(Seq::<char>::empty()) == Seq::<char>::empty());
    assert(seq!['\n', '\t'] + Seq::<char>::empty() =~= seq!['\n'] + seq!['\t']);
    assert(indent_lines("\n"@) == seq!['\n'] + seq!['\t']);
    assert(t + "\n"@ + "\t"@ =~= t + (seq!['\n'] + seq!['\t']));
}

proof fn lemma_tab_single_line()
    ensures
        single_line("\t"@),
{
    reveal_strlit("\t");
}

/// A line that ends in a line break gets a tab after the break.
proof fn lemma_indent_broken_line(t: Seq<char>)
    requires
        t.len() > 0,
        t.last() == '\n',
        single_line(t.drop_last()),
    ensures
        indent_lines(t) == t + "\t"@,
{
    lemma_indent_line(t.drop_last());
    reveal_strlit("\n");
    assert("\n"@ =~= seq!['\n']);
    assert(t.drop_last() + "\n"@ =~= t);
}

/// `d` tabs hold no line break, and `d + 1` tabs are a tab followed by `d` tabs.
proof fn lemma_tabs(d: nat)
    ensures
        single_line(tabs_text(d)),
        tabs_text(d + 1) == "\t"@ + tabs_text(d),
    decreases d,
{
    lemma_tab_single_line();
    if d == 0 {
        assert(tabs_text(0) =~= Seq::<char>::empty());
        assert(tabs_text(1) == tabs_text(0) + "\t"@);
        assert(tabs_text(1) =~= "\t"@ + tabs_text(0));
    } else {
        lemma_tabs((d - 1) as nat);
        lemma_single_line_concat(tabs_text((d - 1) as nat), "\t"@);
        assert(tabs_text(d) == tabs_text((d - 1) as nat) + "\t"@);
        assert(tabs_text(d + 1) == tabs_text(d) + "\t"@);
        assert(tabs_text(d + 1) =~= "\t"@ + tabs_text(d));
    }
}

/// A line that ends with the literal `lit`, whose only line break is its last
/// character, gets a tab after that break.
proof fn lemma_line_ending(u: Seq<char>, lit: Seq<char>)
    requires
        single_line(u),
        lit.len() > 0,
        lit.last() == '\n',
        single_line(lit.drop_last()),
    ensures
        indent_lines(u + lit) == u + lit + "\t"@,
{
    lemma_single_line_concat(u, lit.drop_last());
    assert((u + lit).drop_last() =~= u + lit.drop_last());
    lemma_indent_broken_line(u + lit);
}

/// What the literals of an `if`/`else` statement hold.
proof fn lemma_if_else_literals()
    ensures
        single_line("if "@),
        single_line("}"@),
        " {\n"@.len() > 0 && " {\n"@.last() == '\n' && single_line(" {\n"@.drop_last()),
        "} else {\n"@.len() > 0 && "} else {\n"@.last() == '\n' && single_line(
            "} else {\n"@.drop_last(),
        ),
{
    reveal_strlit("if ");
    reveal_strlit(" {\n");
    reveal_strlit("} else {\n");
    reveal_strlit("}");
    assert(" {\n"@.drop_last() =~= seq![' ', '{']);
    assert("} else {\n"@.drop_last() =~= seq!['}', ' ', 'e', 'l', 's', 'e', ' ', '{']);
}

/// The lines of an `if`/`else` statement, one tab deeper.
#[verifier::rlimit(60)]
proof fn lemma_if_else_lines(
    ind: Seq<char>,
    b: Seq<char>,
    bc: Seq<char>,
    ba: Seq<char>,
    bc2: Seq<char>,
    ba2: Seq<char>,
)
    requires
        single_line(ind),
        single_line(b),
        bc2 + "\t"@ == "\t"@ + indent_lines(bc),
        ba2 + "\t"@ == "\t"@ + indent_lines(ba),
    ensures
        ("\t"@ + ind) + ("if "@ + b + " {\n"@ + bc2 + ("\t"@ + ind) + "} else {\n"@ + ba2 + ("\t"@
            + ind) + "}"@) == "\t"@ + indent_lines(
            ind + ("if "@ + b + " {\n"@ + bc + ind + "} else {\n"@ + ba + ind + "}"@),
        ),
{
    let t = "\t"@;
    lemma_if_else_literals();
    let head = ind + "if "@ + b;
    lemma_single_line_concat(ind, "if "@);
    lemma_single_line_concat(ind + "if "@, b);
    let p = head + " {\n"@;
    lemma_line_ending(head, " {\n"@);
    let q = ind + "} else {\n"@;
    lemma_line_ending(ind, "} else {\n"@);
    let r = ind + "}"@;
    lemma_single_line_concat(ind, "}"@);
    lemma_indent_single_line(r);
    let x = p + bc + q + ba + r;
    assert(ind + ("if "@ + b + " {\n"@ + bc + ind + "} else {\n"@ + ba + ind + "}"@) =~= x);
    lemma_indent_concat(p, bc);
    lemma_indent_concat(p + bc, q);
    lemma_indent_concat(p + bc + q, ba);
    lemma_indent_concat(p + bc + q + ba, r);
    let lhs = (t + ind) + ("if "@ + b + " {\n"@ + bc2 + (t + ind) + "} else {\n"@ + ba2 + (t + ind)
        + "}"@);
    assert(lhs =~= t + p + (bc2 + t) + q + (ba2 + t) + r);
    assert(t + p + (t + indent_lines(bc)) + q + (t + indent_lines(ba)) + r =~= t + ((p + t)
        + indent_lines(bc) + (q + t) + indent_lines(ba) + r));
}

/// The lines of an assembly block, one tab deeper.
proof fn lemma_assembly_lines(ind: Seq<char>, bs: Seq<char>, bs2: Seq<char>)
    requires
        single_line(ind),
        bs2 + "\t"@ == "\t"@ + indent_lines(bs),
    ensures
        ("\t"@ + ind) + ("asm {\n"@ + bs2 + ("\t"@ + ind) + "}"@) == "\t"@ + indent_lines(
            ind + ("asm {\n"@ + bs + ind + "}"@),
        ),
{
    let t = "\t"@;
    reveal_strlit("asm {\n");
    reveal_strlit("}");
    lemma_indent_single_line("}"@);
    lemma_indent_single_line(ind);
    assert("asm {\n"@.drop_last() =~= seq!['a', 's', 'm', ' ', '{']);
    lemma_indent_broken_line("asm {\n"@);
    let x1 = ind + "asm {\n"@;
    let x2 = x1 + bs;
    let x3 = x2 + ind;
    let x4 = x3 + "}"@;
    lemma_indent_concat(ind, "asm {\n"@);
    lemma_indent_concat(x1, bs);
    lemma_indent_concat(x2, ind);
    lemma_indent_concat(x3, "}"@);
    assert(ind + ("asm {\n"@ + bs + ind + "}"@) =~= x4);
    assert(indent_lines(x4) =~= ind + ("asm {\n"@ + t) + indent_lines(bs) + ind + "}"@);
    assert((t + ind) + ("asm {\n"@ + bs2 + (t + ind) + "}"@) =~= t + ind + "asm {\n"@ + (bs2 + t)
        + ind + "}"@);
    assert(t + ind + "asm {\n"@ + (t + indent_lines(bs)) + ind + "}"@ =~= t + indent_lines(x4));
}

proof fn lemma_stmt_one_tab_deeper<'ast, T: Field>(s: ZirStatement<'ast, T>, ind: Seq<char>)
    requires
        single_line(ind),
        reindentable(s),
    ensures
        stmt_text(s, "\t"@ + ind) == "\t"@ + indent_lines(stmt_text(s, ind)),
    decreases s,
{
    lemma_tab_single_line();
    lemma_single_line_concat(ind, "\t"@);
    let j = ind + "\t"@;
    assert(("\t"@ + ind) + "\t"@ =~= "\t"@ + j);
    match s {
        ZirStatement::IfElse(c, cons, alt) => {
            lemma_block_one_tab_deeper(cons@, j);
            lemma_block_one_tab_deeper(alt@, j);
            lemma_if_else_lines(
                ind,
                b_text(c),
                block_text(cons@, j),
                block_text(alt@, j),
                block_text(cons@, "\t"@ + j),
                block_text(alt@, "\t"@ + j),
            );
            assert(stmt_text(s, "\t"@ + ind) == ("\t"@ + ind) + ("if "@ + b_text(c) + " {\n"@
                + block_text(cons@, "\t"@ + j) + ("\t"@ + ind) + "} else {\n"@ + block_text(
                alt@,
                "\t"@ + j,
            ) + ("\t"@ + ind) + "}"@));
        },
        ZirStatement::Assembly(ss) => {
            lemma_asm_block_one_tab_deeper(ss@, j);
            lemma_assembly_lines(ind, asm_block_text(ss@, j), asm_block_text(ss@, "\t"@ + j));
            assert(stmt_text(s, "\t"@ + ind) == ("\t"@ + ind) + ("asm {\n"@ + asm_block_text(
                ss@,
                "\t"@ + j,
            ) + ("\t"@ + ind) + "}"@));
        },
        _ => {
            let m = stmt_text(s, Seq::empty());
            assert(stmt_text(s, ind) =~= ind + m);
            assert(stmt_text(s, "\t"@ + ind) =~= "\t"@ + ind + m);
            lemma_single_line_concat(ind, m);
            lemma_indent_single_line(ind + m);
            assert("\t"@ + ind + m =~= "\t"@ + (ind + m));
        },
    }
}

proof fn lemma_block_one_tab_deeper<'ast, T: Field>(ss: Seq<ZirStatement<'ast, T>>, j: Seq<char>)
    requires
        single_line(j),
        block_reindentable(ss),
    ensures
        block_text(ss, "\t"@ + j) + "\t"@ == "\t"@ + indent_lines(block_text(ss, j)),
    decreases ss,
{
    let t = "\t"@;
    if ss.len() == 0 {
        assert(block_text(ss, t + j) =~= Seq::<char>::empty());
        assert(block_text(ss, j) =~= Seq::<char>::empty());
        assert(indent_lines(Seq::<char>::empty()) =~= Seq::<char>::empty());
        assert(block_text(ss, t + j) + t =~= t + indent_lines(block_text(ss, j)));
    } else {
        lemma_block_one_tab_deeper(ss.drop_last(), j);
        lemma_stmt_one_tab_deeper(ss.last(), j);
        let pb = block_text(ss.drop_last(), j);
        let st = stmt_text(ss.last(), j);
        let pb2 = block_text(ss.drop_last(), t + j);
        let st2 = stmt_text(ss.last(), t + j);
        lemma_indent_concat(pb, st);
        lemma_indent_concat(pb + st, "\n"@);
        lemma_indent_line(Seq::empty());
        assert(Seq::<char>::empty() + "\n"@ =~= "\n"@);
        assert(Seq::<char>::empty() + "\n"@ + t =~= "\n"@ + t);
        assert(block_text(ss, j) == pb + st + "\n"@);
        assert(block_text(ss, t + j) == pb2 + st2 + "\n"@);
        assert(pb2 + st2 + "\n"@ + t =~= (pb2 + t) + indent_lines(st) + ("\n"@ + t));
        assert(t + indent_lines(pb) + indent_lines(st) + ("\n"@ + t) =~= t + indent_lines(
            pb + st + "\n"@,
        ));
    }
}

proof fn lemma_asm_block_one_tab_deeper<'ast, T: Field>(
    ss: Seq<ZirAssemblyStatement<'ast, T>>,
    j: Seq<char>,
)
    requires
        single_line(j),
        asm_block_single_lines(ss),
    ensures
        asm_block_text(ss, "\t"@ + j) + "\t"@ == "\t"@ + indent_lines(asm_block_text(ss, j)),
    decreases ss.len(),
{
    let t = "\t"@;
    if ss.len() == 0 {
        assert(asm_block_text(ss, t + j) =~= Seq::<char>::empty());
        assert(asm_block_text(ss, j) =~= Seq::<char>::empty());
        assert(indent_lines(Seq::<char>::empty()) =~= Seq::<char>::empty());
        assert(asm_block_text(ss, t + j) + t =~= t + indent_lines(asm_block_text(ss, j)));
    } else {
        lemma_asm_block_one_tab_deeper(ss.drop_last(), j);
        let pb = asm_block_text(ss.drop_last(), j);
        let pb2 = asm_block_text(ss.drop_last(), t + j);
        let a = asm_text(ss.last());
        lemma_single_line_concat(j, a);
        lemma_indent_line(j + a);
        lemma_indent_concat(pb, j + a + "\n"@);
        assert(asm_block_text(ss, j) =~= pb + (j + a + "\n"@));
        assert(asm_block_text(ss, t + j) == pb2 + (t + j) + a + "\n"@);
        assert(pb2 + (t + j) + a + "\n"@ + t =~= (pb2 + t) + (j + a + "\n"@ + t));
        assert(t + indent_lines(pb) + (j + a + "\n"@ + t) =~= t + indent_lines(
            pb + (j + a + "\n"@),
        ));
    }
}

/// One level of nesting deeper, a statement prints with one more tab at the
/// start of every line and is otherwise unchanged, provided that only the
/// statement's own blocks break lines.
pub proof fn lemma_one_level_deeper<'ast, T: Field>(s: ZirStatement<'ast, T>, depth: nat)
    requires
        reindentable(s),
    ensures
        statement_text(s, depth + 1) == "\t"@ + indent_lines(statement_text(s, depth)),
{
    lemma_tabs(depth);
    lemma_stmt_one_tab_deeper(s, tabs_text(depth));
}

} // verus!
