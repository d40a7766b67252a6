//! Building blocks of the printed form: decimal numerals, indentation and
//! separated lists, each with the executable writer that appends it to a
//! `String`.
use vstd::prelude::*;
use vstd::string::*;

verus! {

/// The numeral of one decimal digit.
pub open spec fn digit_text(d: nat) -> Seq<char> {
    if d == 0 {
        "0"@
    } else if d == 1 {
        "1"@
    } else if d == 2 {
        "2"@
    } else if d == 3 {
        "3"@
    } else if d == 4 {
        "4"@
    } else if d == 5 {
        "5"@
    } else if d == 6 {
        "6"@
    } else if d == 7 {
        "7"@
    } else if d == 8 {
        "8"@
    } else {
        "9"@
    }
}

/// The decimal numeral of `n`, most significant digit first, without
/// leading zeros (`0` is written `0`).
pub open spec fn dec_text(n: nat) -> Seq<char>
    decreases n,
{
    if n < 10 {
        digit_text(n)
    } else {
        dec_text(n / 10) + digit_text(n % 10)
    }
}

/// `n` tab characters.
pub open spec fn tabs_text(n: nat) -> Seq<char>
    decreases n,
{
    if n == 0 {
        Seq::empty()
    } else {
        tabs_text((n - 1) as nat) + "\t"@
    }
}

/// The printed form of a boolean constant.
pub open spec fn bool_text(b: bool) -> Seq<char> {
    if b {
        "true"@
    } else {
        "false"@
    }
}

/// `parts` with `sep` between each two neighbours.
pub open spec fn join_text(parts: Seq<Seq<char>>, sep: Seq<char>) -> Seq<char>
    decreases parts.len(),
{
    if parts.len() == 0 {
        Seq::empty()
    } else if parts.len() == 1 {
        parts[0]
    } else {
        join_text(parts.drop_last(), sep) + sep + parts.last()
    }
}

/// Appends the numeral of the digit `d`.
pub fn write_digit(f: &mut String, d: u128)
    requires
        d < 10,
    ensures
        final(f)@ == old(f)@ + digit_text(d as nat),
{
    if d == 0 {
        f.append("0");
    } else if d == 1 {
        f.append("1");
    } else if d == 2 {
        f.append("2");
    } else if d == 3 {
        f.append("3");
    } else if d == 4 {
        f.append("4");
    } else if d == 5 {
        f.append("5");
    } else if d == 6 {
        f.append("6");
    } else if d == 7 {
        f.append("7");
    } else if d == 8 {
        f.append("8");
    } else {
        f.append("9");
    }
}

/// Appends the decimal numeral of `n`.
pub fn write_dec(f: &mut String, n: u128)
    ensures
        final(f)@ == old(f)@ + dec_text(n as nat),
    decreases n,
{
    if n < 10 {
        write_digit(f, n);
    } else {
        write_dec(f, n / 10);
        write_digit(f, n % 10);
    }
}

/// Appends `n` tab characters.
pub fn write_tabs(f: &mut String, n: usize)
    ensures
        final(f)@ == old(f)@ + tabs_text(n as nat),
{
    let mut i: usize = 0;
    while i < n
        invariant
            i <= n,
            f@ == old(f)@ + tabs_text(i as nat),
        decreases n - i,
    {
        f.append("\t");
        i = i + 1;
    }
}

/// Appends `true` or `false`.
pub fn write_bool(f: &mut String, b: bool)
    ensures
        final(f)@ == old(f)@ + bool_text(b),
{
    if b {
        f.append("true");
    } else {
        f.append("false");
    }
}

/// Joining one more part onto a non-empty list adds the separator and the part.
pub proof fn lemma_join_push(parts: Seq<Seq<char>>, sep: Seq<char>, part: Seq<char>)
    ensures
        join_text(parts.push(part), sep) == if parts.len() == 0 {
            part
        } else {
            join_text(parts, sep) + sep + part
        },
{
    assert(parts.push(part).drop_last() == parts);
}

} // verus!
