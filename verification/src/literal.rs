//! Rust literal tokens for strings and characters.
use crate::tokens::{push_char, push_text};
use vstd::prelude::*;

verus! {

/// How `c` is written inside a literal delimited by `quote`: the delimiter and the
/// backslash get a backslash before them; new line, carriage return, tab and NUL are
/// written `\n`, `\r`, `\t` and `\0`; every other character stands for itself.
pub open spec fn escape_in(c: char, quote: char) -> Seq<char> {
    if c == quote || c == '\\' {
        seq!['\\', c]
    } else if c == '\n' {
        seq!['\\', 'n']
    } else if c == '\r' {
        seq!['\\', 'r']
    } else if c == '\t' {
        seq!['\\', 't']
    } else if c == '\0' {
        seq!['\\', '0']
    } else {
        seq![c]
    }
}

/// The characters of `s`, each written as inside a literal delimited by `quote`.
pub open spec fn escaped(s: Seq<char>, quote: char) -> Seq<char>
    decreases s.len(),
{
    if s.len() == 0 {
        Seq::empty()
    } else {
        escaped(s.drop_last(), quote) + escape_in(s.last(), quote)
    }
}

/// The text of a string literal whose value is `s`.
pub open spec fn string_literal(s: Seq<char>) -> Seq<char> {
    seq!['"'] + escaped(s, '"') + seq!['"']
}

/// The text of a character literal whose value is `c`.
pub open spec fn char_literal(c: char) -> Seq<char> {
    seq!['\''] + escape_in(c, '\'') + seq!['\'']
}

fn escape_into(out: &mut String, c: char, quote: char)
    ensures
        final(out)@ == old(out)@ + escape_in(c, quote),
{
    let ghost start = out@;
    if c == quote || c == '\\' {
        push_char(out, '\\');
        push_char(out, c);
    } else if c == '\n' {
        push_text(out, "\\n");
    } else if c == '\r' {
        push_text(out, "\\r");
    } else if c == '\t' {
        push_text(out, "\\t");
    } else if c == '\0' {
        push_text(out, "\\0");
    } else {
        push_char(out, c);
    }
    proof {
        reveal_strlit("\\n");
        reveal_strlit("\\r");
        reveal_strlit("\\t");
        reveal_strlit("\\0");
    }
    assert(out@ =~= start + escape_in(c, quote));
}

/// The string literal whose value is `s`.
pub fn quote_str(s: &str) -> (r: String)
    ensures
        r@ == string_literal(s@),
{
    let mut out = String::new();
    push_char(&mut out, '"');
    let n = s.unicode_len();
    let mut i: usize = 0;
    assert(s@.subrange(0, 0) =~= Seq::<char>::empty());
    while i < n
        invariant
            n == s@.len(),
            i <= n,
            out@ == seq!['"'] + escaped(s@.subrange(0, i as int), '"'),
        decreases n - i,
    {
        let c = s.get_char(i);
        let ghost next = s@.subrange(0, i + 1);
        assert(next.drop_last() =~= s@.subrange(0, i as int));
        assert(next.last() == c);
        escape_into(&mut out, c, '"');
        assert(out@ =~= seq!['"'] + escaped(next, '"'));
        i = i + 1;
    }
    assert(s@.subrange(0, n as int) =~= s@);
    push_char(&mut out, '"');
    out
}

/// The character literal whose value is `c`.
pub fn quote_char(c: char) -> (r: String)
    ensures
        r@ == char_literal(c),
{
    let mut out = String::new();
    push_char(&mut out, '\'');
    escape_into(&mut out, c, '\'');
    push_char(&mut out, '\'');
    assert(out@ =~= char_literal(c));
    out
}

} // verus!
