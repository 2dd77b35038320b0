//! Decimal text of integers and of fixed-point numbers.

use vstd::prelude::*;

verus! {

/// `String::push` of the standard library: appends the character `c` at the
/// end of `s` and leaves the characters before it as they were.
pub assume_specification[ String::push ](s: &mut String, c: char)
    ensures
        final(s)@ == old(s)@.push(c),
;

/// The character that writes the decimal digit `d`.
pub open spec fn digit_char(d: int) -> char {
    if d == 0 {
        '0'
    } else if d == 1 {
        '1'
    } else if d == 2 {
        '2'
    } else if d == 3 {
        '3'
    } else if d == 4 {
        '4'
    } else if d == 5 {
        '5'
    } else if d == 6 {
        '6'
    } else if d == 7 {
        '7'
    } else if d == 8 {
        '8'
    } else {
        '9'
    }
}

/// Decimal notation of a natural number, without leading zeros.
pub open spec fn decimal(n: nat) -> Seq<char>
    decreases n,
{
    if n < 10 {
        seq![digit_char(n as int)]
    } else {
        decimal(n / 10).push(digit_char((n % 10) as int))
    }
}

/// The decimal notation of a number has at least one digit.
pub proof fn lemma_decimal_is_not_empty(n: nat)
    ensures
        decimal(n).len() >= 1,
    decreases n,
{
    if n >= 10 {
        lemma_decimal_is_not_empty(n / 10);
    }
}

/// The last digit of the decimal notation of a number is the digit of its
/// remainder by ten.
proof fn lemma_decimal_last(n: nat)
    ensures
        decimal(n).len() >= 1,
        decimal(n).last() == digit_char((n % 10) as int),
        n >= 10 ==> decimal(n).drop_last() == decimal(n / 10),
        n < 10 ==> decimal(n).len() == 1,
{
    lemma_decimal_is_not_empty(n / 10);
    if n >= 10 {
        assert(decimal(n / 10).push(digit_char((n % 10) as int)).drop_last() =~= decimal(n / 10));
    }
}

/// Different numbers have different decimal notations.
pub proof fn lemma_decimal_is_one_to_one(m: nat, n: nat)
    requires
        m != n,
    ensures
        decimal(m) != decimal(n),
    decreases m + n,
{
    lemma_decimal_last(m);
    lemma_decimal_last(n);
    if decimal(m) == decimal(n) {
        assert(m % 10 == n % 10);
        if m >= 10 && n >= 10 {
            lemma_decimal_is_one_to_one(m / 10, n / 10);
        } else if m >= 10 {
            lemma_decimal_is_not_empty(m / 10);
            assert(decimal(m).len() >= 2);
        } else if n >= 10 {
            lemma_decimal_is_not_empty(n / 10);
            assert(decimal(n).len() >= 2);
        }
    }
}

/// Decimal notation of an integer: a minus sign for negative numbers, then
/// the digits of the magnitude.
pub open spec fn signed_decimal(v: int) -> Seq<char> {
    if v < 0 {
        seq!['-'] + decimal((-v) as nat)
    } else {
        decimal(v as nat)
    }
}

/// Notation of `v` tenths with one digit after the point: `-125` is `-12.5`.
pub open spec fn tenths_text(v: int) -> Seq<char> {
    let m = if v < 0 { -v } else { v };
    (if v < 0 { seq!['-'] } else { Seq::<char>::empty() }) + decimal((m / 10) as nat) + seq![
        '.',
        digit_char(m % 10),
    ]
}

/// Notation of `v` thousandths with three digits after the point: `250` is
/// `0.250`.
pub open spec fn thousandths_text(v: int) -> Seq<char> {
    let m = if v < 0 { -v } else { v };
    (if v < 0 { seq!['-'] } else { Seq::<char>::empty() }) + decimal((m / 1000) as nat) + seq![
        '.',
        digit_char((m / 100) % 10),
        digit_char((m / 10) % 10),
        digit_char(m % 10),
    ]
}

/// The text of a boolean literal.
pub open spec fn bool_text(b: bool) -> Seq<char> {
    if b {
        "true"@
    } else {
        "false"@
    }
}

/// The parts in order, with the separator between each two neighbours.
pub open spec fn joined(parts: Seq<Seq<char>>, sep: Seq<char>) -> Seq<char>
    decreases parts.len(),
{
    if parts.len() == 0 {
        Seq::empty()
    } else if parts.len() == 1 {
        parts[0]
    } else {
        joined(parts.drop_last(), sep) + sep + parts.last()
    }
}

/// Joining one part more puts the separator and the part at the end, and
/// the part alone where there was none before it.
pub proof fn lemma_joined_push(parts: Seq<Seq<char>>, part: Seq<char>, sep: Seq<char>)
    ensures
        joined(parts.push(part), sep) == if parts.len() == 0 {
            part
        } else {
            joined(parts, sep) + sep + part
        },
{
    assert(parts.push(part).drop_last() =~= parts);
}

fn digit(d: u64) -> (c: char)
    requires
        d < 10,
    ensures
        c == digit_char(d as int),
{
    if d == 0 {
        '0'
    } else if d == 1 {
        '1'
    } else if d == 2 {
        '2'
    } else if d == 3 {
        '3'
    } else if d == 4 {
        '4'
    } else if d == 5 {
        '5'
    } else if d == 6 {
        '6'
    } else if d == 7 {
        '7'
    } else if d == 8 {
        '8'
    } else {
        '9'
    }
}

/// Appends the decimal notation of `n`.
pub fn push_decimal(out: &mut String, n: u64)
    ensures
        final(out)@ == old(out)@ + decimal(n as nat),
    decreases n,
{
    if n >= 10 {
        push_decimal(out, n / 10);
    }
    out.push(digit(n % 10));
    assert(out@ =~= old(out)@ + decimal(n as nat));
}

fn magnitude(v: i64) -> (m: u64)
    ensures
        m == (if v < 0 { -v } else { v as int }),
{
    if v < 0 {
        let below: i64 = -(v + 1);
        (below as u64) + 1
    } else {
        v as u64
    }
}

/// Appends the decimal notation of the integer `v`.
pub fn push_signed(out: &mut String, v: i64)
    ensures
        final(out)@ == old(out)@ + signed_decimal(v as int),
{
    if v < 0 {
        out.push('-');
    }
    push_decimal(out, magnitude(v));
    assert(out@ =~= old(out)@ + signed_decimal(v as int));
}

/// Appends `v` tenths with one digit after the point.
pub fn push_tenths(out: &mut String, v: i64)
    ensures
        final(out)@ == old(out)@ + tenths_text(v as int),
{
    let m: u64 = magnitude(v);
    if v < 0 {
        out.push('-');
    }
    push_decimal(out, m / 10);
    out.push('.');
    out.push(digit(m % 10));
    assert(out@ =~= old(out)@ + tenths_text(v as int));
}

/// Appends `v` thousandths with three digits after the point.
pub fn push_thousandths(out: &mut String, v: i64)
    ensures
        final(out)@ == old(out)@ + thousandths_text(v as int),
{
    let m: u64 = magnitude(v);
    if v < 0 {
        out.push('-');
    }
    push_decimal(out, m / 1000);
    out.push('.');
    out.push(digit((m / 100) % 10));
    out.push(digit((m / 10) % 10));
    out.push(digit(m % 10));
    assert(out@ =~= old(out)@ + thousandths_text(v as int));
}

/// Appends `true` or `false`.
pub fn push_bool(out: &mut String, b: bool)
    ensures
        final(out)@ == old(out)@ + bool_text(b),
{
    if b {
        out.append("true");
    } else {
        out.append("false");
    }
}

} // verus!
