//! Token trees of Rust source, their text, and the literal forms the grammar reads.
use vstd::prelude::*;

verus! {

/// Delimiter of a token group.
pub enum Delim {
    Paren,
    Bracket,
    Brace,
    Invisible,
}

/// One token tree, as the compiler hands it to a derive macro.
pub enum Tok {
    /// An identifier (keywords included), written as in the source
    Ident(String),
    /// A punctuation character; `true` when it is joined to the next one (`::`)
    Punct(char, bool),
    /// A literal, written as in the source (quotes included)
    Lit(String),
    /// A delimited group of token trees
    Group(Delim, Vec<Tok>),
}

/// Identifier with the given text.
pub open spec fn is_kw(t: Tok, kw: Seq<char>) -> bool {
    t matches Tok::Ident(s) && s@ == kw
}

/// Any identifier.
pub open spec fn is_ident(t: Tok) -> bool {
    t is Ident
}

/// Punctuation character `c`, whatever its spacing.
pub open spec fn is_punct(t: Tok, c: char) -> bool {
    t matches Tok::Punct(p, _) && p == c
}

/// A punctuation character joined to the next one.
pub open spec fn is_joint(t: Tok) -> bool {
    t matches Tok::Punct(_, j) && j
}

pub open spec fn is_paren(t: Tok) -> bool {
    t matches Tok::Group(d, _) && d is Paren
}

pub open spec fn is_bracket(t: Tok) -> bool {
    t matches Tok::Group(d, _) && d is Bracket
}

pub open spec fn is_brace(t: Tok) -> bool {
    t matches Tok::Group(d, _) && d is Brace
}

/// The token trees inside a group (empty for other tokens).
pub open spec fn inner(t: Tok) -> Seq<Tok> {
    match t {
        Tok::Group(_, v) => v@,
        _ => Seq::empty(),
    }
}

/// A double quoted string literal: a literal whose text starts with `"` (a lexed
/// string literal also ends with one, so it has at least two characters).
pub open spec fn is_str_lit(t: Tok) -> bool {
    t matches Tok::Lit(s) && s@.len() >= 2 && s@[0] == '"'
}

/// The text of a literal token.
pub open spec fn lit_text(t: Tok) -> Seq<char> {
    match t {
        Tok::Lit(s) => s@,
        _ => Seq::empty(),
    }
}

/// The text of a string literal with its first and last character (the quotes) removed.
pub open spec fn str_lit_content(t: Tok) -> Seq<char> {
    let s = lit_text(t);
    s.subrange(1, s.len() - 1)
}

/// A character literal: a literal of at least two characters whose first is `'`.
pub open spec fn is_char_lit(t: Tok) -> bool {
    t matches Tok::Lit(s) && s@.len() >= 2 && s@[0] == '\''
}

/// The character after the opening quote of a character literal.
pub open spec fn char_lit_value(t: Tok) -> char {
    lit_text(t)[1]
}

pub open spec fn open_text(d: Delim) -> Seq<char> {
    match d {
        Delim::Paren => seq!['('],
        Delim::Bracket => seq!['['],
        Delim::Brace => seq!['{', ' '],
        Delim::Invisible => Seq::empty(),
    }
}

pub open spec fn close_text(d: Delim) -> Seq<char> {
    match d {
        Delim::Paren => seq![')'],
        Delim::Bracket => seq![']'],
        Delim::Brace => seq!['}'],
        Delim::Invisible => Seq::empty(),
    }
}

/// Text of a token sequence: tokens separated by one space, except after a joined
/// punctuation character.
pub open spec fn toks_text(s: Seq<Tok>) -> Seq<char>
    decreases s,
{
    if s.len() == 0 {
        Seq::empty()
    } else {
        let p = toks_text(s.subrange(0, s.len() - 1));
        let gap = if s.len() > 1 && !is_joint(s[s.len() - 2]) {
            seq![' ']
        } else {
            Seq::empty()
        };
        p + gap + tok_text(s[s.len() - 1])
    }
}

/// Text of one token tree; a non-empty brace group gets a space before its `}`.
pub open spec fn tok_text(t: Tok) -> Seq<char>
    decreases t,
{
    match t {
        Tok::Ident(s) => s@,
        Tok::Punct(c, _) => seq![c],
        Tok::Lit(s) => s@,
        Tok::Group(d, v) => {
            let tail = if d is Brace && v@.len() > 0 {
                seq![' ']
            } else {
                Seq::empty()
            };
            open_text(d) + toks_text(v@) + tail + close_text(d)
        },
    }
}

/// Whether two texts are equal.
pub fn text_eq(a: &str, b: &str) -> (r: bool)
    ensures
        r == (a@ == b@),
{
    let n = a.unicode_len();
    let m = b.unicode_len();
    if n != m {
        return false;
    }
    let mut i: usize = 0;
    while i < n
        invariant
            n == a@.len(),
            m == b@.len(),
            n == m,
            i <= n,
            a@.subrange(0, i as int) =~= b@.subrange(0, i as int),
        decreases n - i,
    {
        if a.get_char(i) != b.get_char(i) {
            assert(a@[i as int] != b@[i as int]);
            return false;
        }
        assert(a@.subrange(0, i + 1) =~= b@.subrange(0, i + 1)) by {
            assert(a@.subrange(0, i + 1) =~= a@.subrange(0, i as int).push(a@[i as int]));
            assert(b@.subrange(0, i + 1) =~= b@.subrange(0, i as int).push(b@[i as int]));
        }
        i = i + 1;
    }
    assert(a@ =~= a@.subrange(0, n as int));
    assert(b@ =~= b@.subrange(0, n as int));
    true
}

/// Appends `s` to `out`.
pub fn push_text(out: &mut String, s: &str)
    ensures
        final(out)@ == old(out)@ + s@,
{
    let n = s.unicode_len();
    let mut i: usize = 0;
    let ghost start = out@;
    while i < n
        invariant
            n == s@.len(),
            i <= n,
            out@ == start + s@.subrange(0, i as int),
        decreases n - i,
    {
        let c = s.get_char(i);
        push_char(out, c);
        assert(s@.subrange(0, i + 1) =~= s@.subrange(0, i as int).push(c));
        i = i + 1;
    }
    assert(s@.subrange(0, n as int) =~= s@);
}

/// The characters `from..to` of `s` as a new string.
pub fn sub_text(s: &str, from: usize, to: usize) -> (r: String)
    requires
        from <= to <= s@.len(),
    ensures
        r@ == s@.subrange(from as int, to as int),
{
    let mut r = String::new();
    let mut i = from;
    while i < to
        invariant
            to <= s@.len(),
            from <= i <= to,
            r@ == s@.subrange(from as int, i as int),
        decreases to - i,
    {
        let c = s.get_char(i);
        push_char(&mut r, c);
        assert(s@.subrange(from as int, i + 1) =~= s@.subrange(from as int, i as int).push(c));
        i = i + 1;
    }
    r
}

/// A copy of `s`.
pub fn copy_text(s: &str) -> (r: String)
    ensures
        r@ == s@,
{
    let n = s.unicode_len();
    let r = sub_text(s, 0, n);
    assert(s@.subrange(0, n as int) =~= s@);
    r
}

/// Identifier with the given text.
pub fn tok_is_kw(t: &Tok, kw: &str) -> (r: bool)
    ensures
        r == is_kw(*t, kw@),
{
    match t {
        Tok::Ident(s) => text_eq(s.as_str(), kw),
        _ => false,
    }
}

/// Punctuation character `c`.
pub fn tok_is_punct(t: &Tok, c: char) -> (r: bool)
    ensures
        r == is_punct(*t, c),
{
    match t {
        Tok::Punct(p, _) => *p == c,
        _ => false,
    }
}

/// The content of a string literal token, without its quotes.
pub fn tok_str_lit(t: &Tok) -> (r: Option<String>)
    ensures
        r is Some <==> is_str_lit(*t),
        r matches Some(v) ==> v@ == str_lit_content(*t),
{
    match t {
        Tok::Lit(s) => {
            let n = s.as_str().unicode_len();
            if n >= 2 && s.as_str().get_char(0) == '"' {
                Some(sub_text(s.as_str(), 1, n - 1))
            } else {
                None
            }
        },
        _ => None,
    }
}

/// The value of a character literal token.
pub fn tok_char_lit(t: &Tok) -> (r: Option<char>)
    ensures
        r is Some <==> is_char_lit(*t),
        r matches Some(c) ==> c == char_lit_value(*t),
{
    match t {
        Tok::Lit(s) => {
            let n = s.as_str().unicode_len();
            if n >= 2 && s.as_str().get_char(0) == '\'' {
                Some(s.as_str().get_char(1))
            } else {
                None
            }
        },
        _ => None,
    }
}

fn push_seq_text(out: &mut String, d: &Delim, opening: bool)
    ensures
        final(out)@ == old(out)@ + (if opening {
            open_text(*d)
        } else {
            close_text(*d)
        }),
{
    match (d, opening) {
        (Delim::Paren, true) => push_char(out, '('),
        (Delim::Paren, false) => push_char(out, ')'),
        (Delim::Bracket, true) => push_char(out, '['),
        (Delim::Bracket, false) => push_char(out, ']'),
        (Delim::Brace, true) => {
            push_char(out, '{');
            push_char(out, ' ');
        },
        (Delim::Brace, false) => push_char(out, '}'),
        (Delim::Invisible, _) => {},
    }
    assert(final(out)@ =~= old(out)@ + (if opening {
        open_text(*d)
    } else {
        close_text(*d)
    }));
}

/// Calls `String::push`, which appends one character.
#[verifier::external_body]
pub fn push_char(out: &mut String, c: char)
    ensures
        final(out)@ == old(out)@.push(c),
{
    out.push(c)
}

/// Appends the text of one token tree.
pub fn write_tok(t: &Tok, out: &mut String)
    ensures
        final(out)@ == old(out)@ + tok_text(*t),
    decreases t,
{
    match t {
        Tok::Ident(s) => push_text(out, s.as_str()),
        Tok::Punct(c, _) => {
            push_char(out, *c);
            assert(seq![*c] =~= Seq::<char>::empty().push(*c));
        },
        Tok::Lit(s) => push_text(out, s.as_str()),
        Tok::Group(d, v) => {
            push_seq_text(out, d, true);
            write_toks(v, out);
            if v.len() > 0 {
                if let Delim::Brace = d {
                    push_char(out, ' ');
                }
            }
            push_seq_text(out, d, false);
            assert(final(out)@ =~= old(out)@ + tok_text(*t));
        },
    }
}

/// Appends the text of a token sequence.
pub fn write_toks(v: &Vec<Tok>, out: &mut String)
    ensures
        final(out)@ == old(out)@ + toks_text(v@),
    decreases v,
{
    let ghost start = out@;
    let mut i: usize = 0;
    assert(v@.subrange(0, 0) =~= Seq::<Tok>::empty());
    while i < v.len()
        invariant
            i <= v@.len(),
            out@ == start + toks_text(v@.subrange(0, i as int)),
        decreases v@.len() - i,
    {
        let ghost before = out@;
        if i > 0 {
            let joint = match &v[i - 1] {
                Tok::Punct(_, j) => *j,
                _ => false,
            };
            if !joint {
                push_char(out, ' ');
            }
        }
        assert(decreases_to!(v => v@));
        write_tok(&v[i], out);
        let ghost s1 = v@.subrange(0, i + 1);
        assert(s1.subrange(0, s1.len() - 1) =~= v@.subrange(0, i as int));
        assert(s1[s1.len() - 1] == v@[i as int]);
        assert(i > 0 ==> s1[s1.len() - 2] == v@[i - 1]);
        assert(out@ =~= start + toks_text(s1));
        i = i + 1;
    }
    assert(v@.subrange(0, v@.len() as int) =~= v@);
}

/// Text of the token trees `from..to` as a new string.
pub fn range_text(v: &Vec<Tok>, from: usize, to: usize) -> (r: String)
    requires
        from <= to <= v@.len(),
    ensures
        r@ == toks_text(v@.subrange(from as int, to as int)),
{
    let mut out = String::new();
    let mut i: usize = from;
    assert(v@.subrange(from as int, from as int) =~= Seq::<Tok>::empty());
    while i < to
        invariant
            to <= v@.len(),
            from <= i <= to,
            out@ == toks_text(v@.subrange(from as int, i as int)),
        decreases to - i,
    {
        if i > from {
            let joint = match &v[i - 1] {
                Tok::Punct(_, j) => *j,
                _ => false,
            };
            if !joint {
                push_char(&mut out, ' ');
            }
        }
        write_tok(&v[i], &mut out);
        let ghost s1 = v@.subrange(from as int, i + 1);
        assert(s1.subrange(0, s1.len() - 1) =~= v@.subrange(from as int, i as int));
        assert(s1[s1.len() - 1] == v@[i as int]);
        assert(i > from ==> s1[s1.len() - 2] == v@[i - 1]);
        assert(out@ =~= toks_text(s1));
        i = i + 1;
    }
    out
}

/// A punctuation character joined to the next one that is not an angle bracket:
/// angle brackets of type arguments are written standing alone.
pub open spec fn glues(t: Tok) -> bool {
    is_joint(t) && !is_punct(t, '<') && !is_punct(t, '>')
}

/// Text of a type's token sequence: as [`toks_text`], but with every `<` and `>` at
/// this level standing alone.
pub open spec fn angle_text(s: Seq<Tok>) -> Seq<char>
    decreases s.len(),
{
    if s.len() == 0 {
        Seq::empty()
    } else {
        let p = angle_text(s.subrange(0, s.len() - 1));
        let gap = if s.len() > 1 && !glues(s[s.len() - 2]) {
            seq![' ']
        } else {
            Seq::empty()
        };
        p + gap + tok_text(s[s.len() - 1])
    }
}

/// Text of the token trees `from..to` of a type as a new string.
pub fn range_angle_text(v: &Vec<Tok>, from: usize, to: usize) -> (r: String)
    requires
        from <= to <= v@.len(),
    ensures
        r@ == angle_text(v@.subrange(from as int, to as int)),
{
    let mut out = String::new();
    let mut i: usize = from;
    assert(v@.subrange(from as int, from as int) =~= Seq::<Tok>::empty());
    while i < to
        invariant
            to <= v@.len(),
            from <= i <= to,
            out@ == angle_text(v@.subrange(from as int, i as int)),
        decreases to - i,
    {
        if i > from {
            let glued = match &v[i - 1] {
                Tok::Punct(c, j) => *j && *c != '<' && *c != '>',
                _ => false,
            };
            if !glued {
                push_char(&mut out, ' ');
            }
        }
        write_tok(&v[i], &mut out);
        let ghost s1 = v@.subrange(from as int, i + 1);
        assert(s1.subrange(0, s1.len() - 1) =~= v@.subrange(from as int, i as int));
        assert(s1[s1.len() - 1] == v@[i as int]);
        assert(i > from ==> s1[s1.len() - 2] == v@[i - 1]);
        assert(out@ =~= angle_text(s1));
        i = i + 1;
    }
    out
}

} // verus!
