//! Escaping of free text for a string literal of the generated program, and
//! the reading of such a literal that the escaping answers to.
//!
//! Between its double quotes a string literal of the generated program
//! takes every character as it is, but three: a backslash begins an escape,
//! a double quote ends the literal, and a carriage return may not stand
//! bare. These three are written as escapes.

use vstd::prelude::*;

verus! {

/// What one character of the text becomes inside a string literal: a
/// backslash in front of a backslash or a double quote, the escape `\r` for
/// a carriage return, the character itself otherwise.
pub open spec fn escaped_char(c: char) -> Seq<char> {
    if c == '\\' || c == '"' {
        seq!['\\', c]
    } else if c == '\r' {
        seq!['\\', 'r']
    } else {
        seq![c]
    }
}

/// The escaped form of a text: each character replaced by its escaped form,
/// in order.
pub open spec fn escaped(s: Seq<char>) -> Seq<char> {
    s.flat_map(|c: char| escaped_char(c))
}

/// Appends the escaped form of `s`.
pub fn push_escaped(out: &mut String, s: &str)
    ensures
        final(out)@ == old(out)@ + escaped(s@),
{
    for c in it: s.chars()
        invariant
            it.seq() == s@,
            out@ == old(out)@ + escaped(s@.take(it.index())),
    {
        proof {
            s@.lemma_flat_map_take_append(|c: char| escaped_char(c), it.index());
        }
        if c == '\\' || c == '"' {
            out.push('\\');
            out.push(c);
        } else if c == '\r' {
            out.push('\\');
            out.push('r');
        } else {
            out.push(c);
        }
        assert(out@ =~= old(out)@ + escaped(s@.take(it.index() + 1)));
    }
    assert(s@.take(s@.len() as int) == s@);
}

/// Escapes `s` for use between the double quotes of a string literal.
pub fn escape(s: &str) -> (out: String)
    ensures
        out@ == escaped(s@),
{
    let mut out = String::new();
    push_escaped(&mut out, s);
    assert(out@ =~= escaped(s@));
    out
}

/// A text as a string literal of the generated program: its escaped form
/// between double quotes.
pub open spec fn string_literal(s: Seq<char>) -> Seq<char> {
    seq!['"'] + escaped(s) + seq!['"']
}

/// Appends `s` as a string literal.
pub fn push_string_literal(out: &mut String, s: &str)
    ensures
        final(out)@ == old(out)@ + string_literal(s@),
{
    out.push('"');
    push_escaped(out, s);
    out.push('"');
    assert(out@ =~= old(out)@ + string_literal(s@));
}

/// Whether a backslash and `c` make one of the escapes that the generated
/// text holds.
pub open spec fn is_escape(c: char) -> bool {
    c == '\\' || c == '"' || c == 'r'
}

/// The character that the escape made of a backslash and `c` stands for.
pub open spec fn escape_value(c: char) -> char {
    if c == 'r' {
        '\r'
    } else {
        c
    }
}

/// Reads the body of a string literal from its first character on: the
/// text it stands for, and the index of the double quote that closes it.
/// `None` where the text ends before a closing quote, holds a bare
/// carriage return, or holds an escape other than `\\`, `\"` and `\r`.
pub open spec fn read_literal(t: Seq<char>) -> Option<(Seq<char>, int)>
    decreases t.len(),
{
    if t.len() == 0 {
        None
    } else if t[0] == '"' {
        Some((Seq::empty(), 0))
    } else if t[0] == '\r' {
        None
    } else if t[0] == '\\' {
        if t.len() >= 2 && is_escape(t[1]) {
            match read_literal(t.skip(2)) {
                Some((s, end)) => Some((seq![escape_value(t[1])] + s, end + 2)),
                None => None,
            }
        } else {
            None
        }
    } else {
        match read_literal(t.skip(1)) {
            Some((s, end)) => Some((seq![t[0]] + s, end + 1)),
            None => None,
        }
    }
}

/// The escaped form of a text is the escaped form of its first character
/// followed by that of the rest.
pub proof fn lemma_escaped_unfold(s: Seq<char>)
    requires
        s.len() > 0,
    ensures
        escaped(s) == escaped_char(s[0]) + escaped(s.drop_first()),
{
    let f = |c: char| escaped_char(c);
    assert(s.map_values(f).drop_first() =~= s.drop_first().map_values(f));
}

/// No carriage return stands in an escaped text.
pub proof fn lemma_escaped_has_no_carriage_return(s: Seq<char>)
    ensures
        forall|i: int| 0 <= i < escaped(s).len() ==> escaped(s)[i] != '\r',
    decreases s.len(),
{
    if s.len() == 0 {
        assert(escaped(s) =~= Seq::<char>::empty());
    } else {
        lemma_escaped_unfold(s);
        lemma_escaped_has_no_carriage_return(s.drop_first());
        let head = escaped_char(s[0]);
        let tail = escaped(s.drop_first());
        assert forall|i: int| 0 <= i < escaped(s).len() implies escaped(s)[i] != '\r' by {
            if i >= head.len() {
                assert(escaped(s)[i] == tail[i - head.len()]);
            }
        }
    }
}

/// Escaping round trip: a literal made of the escaped form of `s`, a closing
/// quote and any text after it reads back as `s`, and ends at that quote.
pub proof fn lemma_escape_round_trip(s: Seq<char>, rest: Seq<char>)
    ensures
        read_literal(escaped(s) + seq!['"'] + rest) == Some((s, escaped(s).len() as int)),
    decreases s.len(),
{
    let t = escaped(s) + seq!['"'] + rest;
    if s.len() == 0 {
        assert(escaped(s) =~= Seq::<char>::empty());
        assert(t[0] == '"');
    } else {
        lemma_escaped_unfold(s);
        let tail = s.drop_first();
        let t2 = escaped(tail) + seq!['"'] + rest;
        lemma_escape_round_trip(tail, rest);
        if s[0] == '\\' || s[0] == '"' {
            assert(t[0] == '\\');
            assert(t[1] == s[0]);
            assert(t.skip(2) =~= t2);
        } else if s[0] == '\r' {
            assert(t[0] == '\\');
            assert(t[1] == 'r');
            assert(t.skip(2) =~= t2);
        } else {
            assert(t[0] == s[0]);
            assert(t.skip(1) =~= t2);
        }
        assert(seq![s[0]] + tail =~= s);
    }
}

/// A string literal in the generated text reads back as the text that it
/// was made from, whatever follows it: it opens with a double quote, its
/// body reads as the text, and the double quote that ends the body is the
/// last character of the literal.
pub proof fn lemma_string_literal_reads_back(s: Seq<char>, rest: Seq<char>)
    ensures
        (string_literal(s) + rest)[0] == '"',
        read_literal((string_literal(s) + rest).skip(1)) == Some((s, escaped(s).len() as int)),
        (string_literal(s) + rest).skip(string_literal(s).len() as int) == rest,
        string_literal(s).len() == escaped(s).len() + 2,
{
    let t = string_literal(s) + rest;
    lemma_escape_round_trip(s, rest);
    assert(t.skip(1) =~= escaped(s) + seq!['"'] + rest);
    assert(t.skip(string_literal(s).len() as int) =~= rest);
}

/// No double quote stands unescaped in an escaped text: read as a literal
/// with nothing after it, the text has no end.
pub proof fn lemma_escaped_has_no_closing_quote(s: Seq<char>)
    ensures
        read_literal(escaped(s)) is None,
    decreases s.len(),
{
    if s.len() == 0 {
        assert(escaped(s) =~= Seq::<char>::empty());
    } else {
        lemma_escaped_unfold(s);
        let tail = s.drop_first();
        lemma_escaped_has_no_closing_quote(tail);
        let t = escaped(s);
        if s[0] == '\\' || s[0] == '"' {
            assert(t[0] == '\\');
            assert(t[1] == s[0]);
            assert(t.skip(2) =~= escaped(tail));
        } else if s[0] == '\r' {
            assert(t[0] == '\\');
            assert(t[1] == 'r');
            assert(t.skip(2) =~= escaped(tail));
        } else {
            assert(t[0] == s[0]);
            assert(t.skip(1) =~= escaped(tail));
        }
    }
}

} // verus!
