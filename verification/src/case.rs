//! Identifier case conversion (`FooBar` to `foo_bar` / `foo-bar`).
use crate::tokens::push_char;
use vstd::prelude::*;

verus! {

/// ASCII upper case letter.
pub open spec fn is_ascii_upper(c: char) -> bool {
    65 <= c as u32 <= 90
}

/// The ASCII lower case letter of an ASCII upper case letter.
pub open spec fn ascii_lower(c: char) -> char {
    ((c as u32) + 32) as char
}

/// The input without a leading raw identifier marker `r#`.
pub open spec fn strip_raw_prefix(s: Seq<char>) -> Seq<char> {
    if s.len() >= 2 && s[0] == 'r' && s[1] == '#' {
        s.subrange(2, s.len() as int)
    } else {
        s
    }
}

/// Case conversion of `s`, read left to right: an upper case letter becomes its
/// lower case form, preceded by `sep` unless nothing was produced yet; `-` and `_`
/// become `sep`; every other character is kept.
pub open spec fn cased(s: Seq<char>, sep: char) -> Seq<char>
    decreases s.len(),
{
    if s.len() == 0 {
        Seq::empty()
    } else {
        let r = cased(s.drop_last(), sep);
        let c = s.last();
        if is_ascii_upper(c) {
            if r.len() > 0 {
                r.push(sep).push(ascii_lower(c))
            } else {
                r.push(ascii_lower(c))
            }
        } else if c == '-' || c == '_' {
            r.push(sep)
        } else {
            r.push(c)
        }
    }
}

/// What `to_custom_case(input, sep)` returns.
pub open spec fn custom_case(s: Seq<char>, sep: char) -> Seq<char> {
    cased(strip_raw_prefix(s), sep)
}


fn lower_ascii(c: char) -> (r: char)
    requires
        is_ascii_upper(c),
    ensures
        r == ascii_lower(c),
{
    ((c as u8) + 32) as char
}

/// Convert identifier to custom case with given separator
pub fn to_custom_case(input: &str, sep: char) -> (res: String)
    ensures
        res@ == custom_case(input@, sep),
{
    let n = input.unicode_len();
    let start: usize = if n >= 2 && input.get_char(0) == 'r' && input.get_char(1) == '#' {
        2
    } else {
        0
    };
    let ghost body = input@.subrange(start as int, n as int);
    assert(strip_raw_prefix(input@) =~= body);
    let mut res = String::new();
    let mut i = start;
    assert(input@.subrange(start as int, start as int) =~= Seq::<char>::empty());
    while i < n
        invariant
            n == input@.len(),
            start <= i <= n,
            res@ == cased(input@.subrange(start as int, i as int), sep),
        decreases n - i,
    {
        let c = input.get_char(i);
        let ghost prev = input@.subrange(start as int, i as int);
        assert(input@.subrange(start as int, i + 1).drop_last() =~= prev);
        assert(input@.subrange(start as int, i + 1).last() == c);
        if (c as u32) >= 65 && (c as u32) <= 90 {
            if res.as_str().unicode_len() > 0 {
                push_char(&mut res, sep);
            }
            push_char(&mut res, lower_ascii(c));
        } else if c == '-' || c == '_' {
            push_char(&mut res, sep);
        } else {
            push_char(&mut res, c);
        }
        i = i + 1;
    }
    res
}

/// Convert identifier to snake_case
pub fn to_snake_case(input: &str) -> (res: String)
    ensures
        res@ == custom_case(input@, '_'),
{
    to_custom_case(input, '_')
}

/// Convert identifier to kebab-case
pub fn to_kebab_case(input: &str) -> (res: String)
    ensures
        res@ == custom_case(input@, '-'),
{
    to_custom_case(input, '-')
}


/// `_` written as `-`, every other character kept.
pub open spec fn dash_for_underscore(s: Seq<char>) -> Seq<char> {
    s.map_values(|c: char| if c == '_' {
        '-'
    } else {
        c
    })
}

proof fn lemma_cased_kebab_snake(s: Seq<char>)
    ensures
        cased(s, '-') == dash_for_underscore(cased(s, '_')),
        cased(s, '-').len() == cased(s, '_').len(),
    decreases s.len(),
{
    if s.len() > 0 {
        lemma_cased_kebab_snake(s.drop_last());
        let r = cased(s.drop_last(), '_');
        let c = s.last();
        assert(dash_for_underscore(r.push('_')) =~= dash_for_underscore(r).push('-'));
        if is_ascii_upper(c) {
            assert(ascii_lower(c) != '_');
            assert(dash_for_underscore(r.push(ascii_lower(c))) =~= dash_for_underscore(r).push(
                ascii_lower(c),
            ));
            assert(dash_for_underscore(r.push('_').push(ascii_lower(c))) =~= dash_for_underscore(
                r,
            ).push('-').push(ascii_lower(c)));
        }
        assert(dash_for_underscore(r.push(c)) =~= dash_for_underscore(r).push(
            if c == '_' {
                '-'
            } else {
                c
            },
        ));
    }
}

/// Kebab case is snake case with every `_` written as `-`.
pub proof fn kebab_is_snake_with_dashes(s: Seq<char>)
    ensures
        custom_case(s, '-') == dash_for_underscore(custom_case(s, '_')),
{
    lemma_cased_kebab_snake(strip_raw_prefix(s));
}

/// The text as case conversion leaves it: no ASCII upper case letter, and `sep` as
/// the only separator.
pub open spec fn is_cased(x: Seq<char>, sep: char) -> bool {
    forall|i: int|
        0 <= i < x.len() ==> !is_ascii_upper(#[trigger] x[i]) && ((x[i] == '-' || x[i] == '_') ==> x[i]
            == sep)
}

proof fn lemma_cased_is_cased(s: Seq<char>, sep: char)
    requires
        sep == '-' || sep == '_',
    ensures
        is_cased(cased(s, sep), sep),
    decreases s.len(),
{
    if s.len() > 0 {
        lemma_cased_is_cased(s.drop_last(), sep);
        let r = cased(s.drop_last(), sep);
        let c = s.last();
        let out = cased(s, sep);
        assert forall|i: int| 0 <= i < out.len() implies !is_ascii_upper(#[trigger] out[i]) && ((out[i]
            == '-' || out[i] == '_') ==> out[i] == sep) by {
            if i < r.len() {
                assert(out[i] == r[i]);
            }
        }
    }
}

proof fn lemma_cased_fixed(x: Seq<char>, sep: char)
    requires
        is_cased(x, sep),
    ensures
        cased(x, sep) == x,
    decreases x.len(),
{
    if x.len() > 0 {
        let y = x.drop_last();
        assert forall|i: int| 0 <= i < y.len() implies !is_ascii_upper(#[trigger] y[i]) && ((y[i] == '-'
            || y[i] == '_') ==> y[i] == sep) by {
            assert(y[i] == x[i]);
        }
        lemma_cased_fixed(y, sep);
        assert(!is_ascii_upper(x[x.len() - 1]));
        assert(y.push(x.last()) =~= x);
    }
}

/// Case conversion leaves no ASCII upper case letter, and only `sep` as a separator.
pub proof fn converted_is_cased(s: Seq<char>, sep: char)
    requires
        sep == '-' || sep == '_',
    ensures
        is_cased(custom_case(s, sep), sep),
{
    lemma_cased_is_cased(strip_raw_prefix(s), sep);
}

/// Converting twice converts once, unless the first result itself starts with the
/// raw identifier marker `r#`.
pub proof fn conversion_is_idempotent(s: Seq<char>, sep: char)
    requires
        sep == '-' || sep == '_',
        strip_raw_prefix(custom_case(s, sep)) == custom_case(s, sep),
    ensures
        custom_case(custom_case(s, sep), sep) == custom_case(s, sep),
{
    converted_is_cased(s, sep);
    lemma_cased_fixed(custom_case(s, sep), sep);
}

/// The text that `str::to_lowercase` makes of `s`, where lowercase is as Unicode's
/// derived core property `Lowercase` defines it.
pub uninterp spec fn lowercase(s: Seq<char>) -> Seq<char>;

/// Calls `str::to_lowercase`; the contract names the result and says no more.
#[verifier::external_body]
pub(crate) fn to_lowercase(s: &str) -> (r: String)
    ensures
        r@ == lowercase(s@),
{
    s.to_lowercase()
}

} // verus!
