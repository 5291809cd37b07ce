//! The grammar of `#[bpaf(...)]` annotations and of the struct or enum they annotate,
//! read from token trees as an ordered-choice (first match wins) grammar.
use crate::tokens::{
    char_lit_value, copy_text, inner, is_brace, is_bracket, is_char_lit, is_ident, is_kw,
    is_paren, is_punct, is_str_lit, lit_text, str_lit_content, tok_char_lit, tok_is_kw,
    tok_is_punct, tok_str_lit, toks_text, write_tok, range_text, angle_text, range_angle_text, Delim, Tok,
};
use vstd::prelude::*;

verus! {

/// The words that may open an item inside `#[bpaf(...)]`.
#[derive(Clone, Copy, PartialEq, Eq, Structural, Debug)]
pub enum Kw {
    Command,
    Skip,
    FallbackToUsage,
    Short,
    Long,
    Env,
    Switch,
    Flag,
    Argument,
    Positional,
    ReqFlag,
    Any,
    External,
    Pure,
    PureWith,
    MapFn,
    Parse,
    Optional,
    Many,
    SomeMsg,
    Catch,
    Collect,
    Count,
    Anywhere,
    Adjacent,
    Strict,
    NonStrict,
    Guard,
    Hide,
    HideUsage,
    CustomUsage,
    FallbackWith,
    GroupHelp,
    DebugFallback,
    DisplayFallback,
    FormatFallback,
    Last,
    Complete,
    Group,
    CompleteShell,
    Help,
    Fallback,
    IgnoreRustdoc,
    Path,
    Generate,
    Private,
    Boxed,
    Descr,
    Footer,
    Header,
    Usage,
    Version,
    MaxWidth,
    CargoHelper,
    Options,
    Parser,
}

/// What follows the word of an item.
#[derive(Clone, Copy, PartialEq, Eq, Structural, Debug)]
pub enum Shape {
    /// nothing
    Bare,
    /// optionally `("text")`
    OptStr,
    /// optionally `('c')`
    OptChar,
    /// a parenthesized group
    Group,
    /// `("text")`
    Str,
    /// `(name)`
    IdentGroup,
    /// optionally a parenthesized group
    OptGroup,
    /// optionally `::<Type>`, then a parenthesized group
    Turbofish,
}

pub open spec fn kw_of(w: Seq<char>) -> Option<Kw> {
    if w == "command"@ { Option::Some(Kw::Command) }
    else if w == "skip"@ { Option::Some(Kw::Skip) }
    else if w == "fallback_to_usage"@ { Option::Some(Kw::FallbackToUsage) }
    else if w == "short"@ { Option::Some(Kw::Short) }
    else if w == "long"@ { Option::Some(Kw::Long) }
    else if w == "env"@ { Option::Some(Kw::Env) }
    else if w == "switch"@ { Option::Some(Kw::Switch) }
    else if w == "flag"@ { Option::Some(Kw::Flag) }
    else if w == "argument"@ { Option::Some(Kw::Argument) }
    else if w == "positional"@ { Option::Some(Kw::Positional) }
    else if w == "req_flag"@ { Option::Some(Kw::ReqFlag) }
    else if w == "any"@ { Option::Some(Kw::Any) }
    else if w == "external"@ { Option::Some(Kw::External) }
    else if w == "pure"@ { Option::Some(Kw::Pure) }
    else if w == "pure_with"@ { Option::Some(Kw::PureWith) }
    else if w == "map"@ { Option::Some(Kw::MapFn) }
    else if w == "parse"@ { Option::Some(Kw::Parse) }
    else if w == "optional"@ { Option::Some(Kw::Optional) }
    else if w == "many"@ { Option::Some(Kw::Many) }
    else if w == "some"@ { Option::Some(Kw::SomeMsg) }
    else if w == "catch"@ { Option::Some(Kw::Catch) }
    else if w == "collect"@ { Option::Some(Kw::Collect) }
    else if w == "count"@ { Option::Some(Kw::Count) }
    else if w == "anywhere"@ { Option::Some(Kw::Anywhere) }
    else if w == "adjacent"@ { Option::Some(Kw::Adjacent) }
    else if w == "strict"@ { Option::Some(Kw::Strict) }
    else if w == "non_strict"@ { Option::Some(Kw::NonStrict) }
    else if w == "guard"@ { Option::Some(Kw::Guard) }
    else if w == "hide"@ { Option::Some(Kw::Hide) }
    else if w == "hide_usage"@ { Option::Some(Kw::HideUsage) }
    else if w == "custom_usage"@ { Option::Some(Kw::CustomUsage) }
    else if w == "fallback_with"@ { Option::Some(Kw::FallbackWith) }
    else if w == "group_help"@ { Option::Some(Kw::GroupHelp) }
    else if w == "debug_fallback"@ { Option::Some(Kw::DebugFallback) }
    else if w == "display_fallback"@ { Option::Some(Kw::DisplayFallback) }
    else if w == "format_fallback"@ { Option::Some(Kw::FormatFallback) }
    else if w == "last"@ { Option::Some(Kw::Last) }
    else if w == "complete"@ { Option::Some(Kw::Complete) }
    else if w == "group"@ { Option::Some(Kw::Group) }
    else if w == "complete_shell"@ { Option::Some(Kw::CompleteShell) }
    else if w == "help"@ { Option::Some(Kw::Help) }
    else if w == "fallback"@ { Option::Some(Kw::Fallback) }
    else if w == "ignore_rustdoc"@ { Option::Some(Kw::IgnoreRustdoc) }
    else if w == "path"@ { Option::Some(Kw::Path) }
    else if w == "generate"@ { Option::Some(Kw::Generate) }
    else if w == "private"@ { Option::Some(Kw::Private) }
    else if w == "boxed"@ { Option::Some(Kw::Boxed) }
    else if w == "descr"@ { Option::Some(Kw::Descr) }
    else if w == "footer"@ { Option::Some(Kw::Footer) }
    else if w == "header"@ { Option::Some(Kw::Header) }
    else if w == "usage"@ { Option::Some(Kw::Usage) }
    else if w == "version"@ { Option::Some(Kw::Version) }
    else if w == "max_width"@ { Option::Some(Kw::MaxWidth) }
    else if w == "cargo_helper"@ { Option::Some(Kw::CargoHelper) }
    else if w == "options"@ { Option::Some(Kw::Options) }
    else if w == "parser"@ { Option::Some(Kw::Parser) }
    else { Option::None }
}

pub open spec fn shape_of(k: Kw) -> Shape {
    match k {
        Kw::Command | Kw::Long | Kw::Argument | Kw::Positional => Shape::OptStr,
        Kw::Short => Shape::OptChar,
        Kw::Env | Kw::Flag | Kw::ReqFlag | Kw::Pure | Kw::PureWith | Kw::MapFn | Kw::Parse
        | Kw::SomeMsg | Kw::Guard | Kw::CustomUsage | Kw::FallbackWith | Kw::GroupHelp
        | Kw::FormatFallback | Kw::Complete | Kw::CompleteShell | Kw::Fallback | Kw::Path
        | Kw::Descr | Kw::Footer | Kw::Header | Kw::Usage | Kw::Version | Kw::MaxWidth => Shape::Group,
        Kw::Group | Kw::Help | Kw::CargoHelper => Shape::Str,
        Kw::Generate => Shape::IdentGroup,
        Kw::External => Shape::OptGroup,
        Kw::Any => Shape::Turbofish,
        _ => Shape::Bare,
    }
}

/// The keyword a text names, if any.
pub fn kw_lookup(w: &str) -> (r: Option<Kw>)
    ensures
        r == kw_of(w@),
{
    if crate::tokens::text_eq(w, "command") { Option::Some(Kw::Command) }
    else if crate::tokens::text_eq(w, "skip") { Option::Some(Kw::Skip) }
    else if crate::tokens::text_eq(w, "fallback_to_usage") { Option::Some(Kw::FallbackToUsage) }
    else if crate::tokens::text_eq(w, "short") { Option::Some(Kw::Short) }
    else if crate::tokens::text_eq(w, "long") { Option::Some(Kw::Long) }
    else if crate::tokens::text_eq(w, "env") { Option::Some(Kw::Env) }
    else if crate::tokens::text_eq(w, "switch") { Option::Some(Kw::Switch) }
    else if crate::tokens::text_eq(w, "flag") { Option::Some(Kw::Flag) }
    else if crate::tokens::text_eq(w, "argument") { Option::Some(Kw::Argument) }
    else if crate::tokens::text_eq(w, "positional") { Option::Some(Kw::Positional) }
    else if crate::tokens::text_eq(w, "req_flag") { Option::Some(Kw::ReqFlag) }
    else if crate::tokens::text_eq(w, "any") { Option::Some(Kw::Any) }
    else if crate::tokens::text_eq(w, "external") { Option::Some(Kw::External) }
    else if crate::tokens::text_eq(w, "pure") { Option::Some(Kw::Pure) }
    else if crate::tokens::text_eq(w, "pure_with") { Option::Some(Kw::PureWith) }
    else if crate::tokens::text_eq(w, "map") { Option::Some(Kw::MapFn) }
    else if crate::tokens::text_eq(w, "parse") { Option::Some(Kw::Parse) }
    else if crate::tokens::text_eq(w, "optional") { Option::Some(Kw::Optional) }
    else if crate::tokens::text_eq(w, "many") { Option::Some(Kw::Many) }
    else if crate::tokens::text_eq(w, "some") { Option::Some(Kw::SomeMsg) }
    else if crate::tokens::text_eq(w, "catch") { Option::Some(Kw::Catch) }
    else if crate::tokens::text_eq(w, "collect") { Option::Some(Kw::Collect) }
    else if crate::tokens::text_eq(w, "count") { Option::Some(Kw::Count) }
    else if crate::tokens::text_eq(w, "anywhere") { Option::Some(Kw::Anywhere) }
    else if crate::tokens::text_eq(w, "adjacent") { Option::Some(Kw::Adjacent) }
    else if crate::tokens::text_eq(w, "strict") { Option::Some(Kw::Strict) }
    else if crate::tokens::text_eq(w, "non_strict") { Option::Some(Kw::NonStrict) }
    else if crate::tokens::text_eq(w, "guard") { Option::Some(Kw::Guard) }
    else if crate::tokens::text_eq(w, "hide") { Option::Some(Kw::Hide) }
    else if crate::tokens::text_eq(w, "hide_usage") { Option::Some(Kw::HideUsage) }
    else if crate::tokens::text_eq(w, "custom_usage") { Option::Some(Kw::CustomUsage) }
    else if crate::tokens::text_eq(w, "fallback_with") { Option::Some(Kw::FallbackWith) }
    else if crate::tokens::text_eq(w, "group_help") { Option::Some(Kw::GroupHelp) }
    else if crate::tokens::text_eq(w, "debug_fallback") { Option::Some(Kw::DebugFallback) }
    else if crate::tokens::text_eq(w, "display_fallback") { Option::Some(Kw::DisplayFallback) }
    else if crate::tokens::text_eq(w, "format_fallback") { Option::Some(Kw::FormatFallback) }
    else if crate::tokens::text_eq(w, "last") { Option::Some(Kw::Last) }
    else if crate::tokens::text_eq(w, "complete") { Option::Some(Kw::Complete) }
    else if crate::tokens::text_eq(w, "group") { Option::Some(Kw::Group) }
    else if crate::tokens::text_eq(w, "complete_shell") { Option::Some(Kw::CompleteShell) }
    else if crate::tokens::text_eq(w, "help") { Option::Some(Kw::Help) }
    else if crate::tokens::text_eq(w, "fallback") { Option::Some(Kw::Fallback) }
    else if crate::tokens::text_eq(w, "ignore_rustdoc") { Option::Some(Kw::IgnoreRustdoc) }
    else if crate::tokens::text_eq(w, "path") { Option::Some(Kw::Path) }
    else if crate::tokens::text_eq(w, "generate") { Option::Some(Kw::Generate) }
    else if crate::tokens::text_eq(w, "private") { Option::Some(Kw::Private) }
    else if crate::tokens::text_eq(w, "boxed") { Option::Some(Kw::Boxed) }
    else if crate::tokens::text_eq(w, "descr") { Option::Some(Kw::Descr) }
    else if crate::tokens::text_eq(w, "footer") { Option::Some(Kw::Footer) }
    else if crate::tokens::text_eq(w, "header") { Option::Some(Kw::Header) }
    else if crate::tokens::text_eq(w, "usage") { Option::Some(Kw::Usage) }
    else if crate::tokens::text_eq(w, "version") { Option::Some(Kw::Version) }
    else if crate::tokens::text_eq(w, "max_width") { Option::Some(Kw::MaxWidth) }
    else if crate::tokens::text_eq(w, "cargo_helper") { Option::Some(Kw::CargoHelper) }
    else if crate::tokens::text_eq(w, "options") { Option::Some(Kw::Options) }
    else if crate::tokens::text_eq(w, "parser") { Option::Some(Kw::Parser) }
    else { Option::None }
}

/// The arguments of a parenthesized group, read three ways: as text, as two
/// comma-separated arguments, and as a string literal followed by a comma and an
/// expression.
pub struct GroupArgs<S> {
    /// Text of the group's content
    pub text: S,
    /// `first, second`: at least one token before the first comma and one after it
    pub two: Option<TwoArgs<S>>,
    /// `"literal", tokens`: the literal's text with its quotes, and the text after the comma
    pub any: Option<AnyArgs<S>>,
}

/// Two comma-separated arguments, such as `flag(present, absent)`.
pub struct TwoArgs<S> {
    /// The text before the first comma
    pub first: S,
    /// The text after the first comma
    pub second: S,
}

/// The arguments of `any("METAVAR", check)`.
pub struct AnyArgs<S> {
    /// The string literal's text, quotes included
    pub metavar: S,
    /// The text of the check function
    pub check_fn: S,
}

impl View for TwoArgs<String> {
    type V = TwoArgs<Seq<char>>;

    open spec fn view(&self) -> TwoArgs<Seq<char>> {
        TwoArgs { first: self.first@, second: self.second@ }
    }
}

impl View for AnyArgs<String> {
    type V = AnyArgs<Seq<char>>;

    open spec fn view(&self) -> AnyArgs<Seq<char>> {
        AnyArgs { metavar: self.metavar@, check_fn: self.check_fn@ }
    }
}

impl TwoArgs<String> {
    /// Convert to the pair of texts
    pub fn into_streams(self) -> (r: (String, String))
        ensures
            r.0@ == self.first@,
            r.1@ == self.second@,
    {
        (self.first, self.second)
    }
}

impl AnyArgs<String> {
    /// Get the metavar string (without quotes)
    pub fn metavar_str(&self) -> (r: String)
        ensures
            r@ == crate::attrs::lit_content(self.metavar@),
    {
        crate::attrs::lit_content_exec(&self.metavar)
    }

    /// Get the check function as code
    pub fn check_fn_tokens(&self) -> (r: String)
        ensures
            r@ == self.check_fn@,
    {
        copy_text(self.check_fn.as_str())
    }
}

/// What an item carries after its word.
pub enum Payload<S> {
    Nothing,
    /// Text of a string literal, quotes included
    OptLit(Option<S>),
    OptChar(Option<char>),
    /// Text of a string literal, quotes included
    Lit(S),
    Ident(S),
    Args(GroupArgs<S>),
    OptArgs(Option<GroupArgs<S>>),
    /// Text of the turbofish type, and the group
    Any(Option<S>, GroupArgs<S>),
}

/// One item of `#[bpaf(...)]`; `kw` is `None` for an item that is not understood.
pub struct Inner<S> {
    pub kw: Option<Kw>,
    pub payload: Payload<S>,
}


pub open spec fn opt_view(p: Option<String>) -> Option<Seq<char>> {
    match p {
        Option::Some(a) => Option::Some(a@),
        Option::None => Option::None,
    }
}

impl View for GroupArgs<String> {
    type V = GroupArgs<Seq<char>>;

    open spec fn view(&self) -> GroupArgs<Seq<char>> {
        GroupArgs {
            text: self.text@,
            two: match self.two {
                Option::Some(t) => Option::Some(t@),
                Option::None => Option::None,
            },
            any: match self.any {
                Option::Some(a) => Option::Some(a@),
                Option::None => Option::None,
            },
        }
    }
}

impl View for Payload<String> {
    type V = Payload<Seq<char>>;

    open spec fn view(&self) -> Payload<Seq<char>> {
        match self {
            Payload::Nothing => Payload::Nothing,
            Payload::OptLit(l) => Payload::OptLit(opt_view(*l)),
            Payload::OptChar(c) => Payload::OptChar(*c),
            Payload::Lit(l) => Payload::Lit(l@),
            Payload::Ident(l) => Payload::Ident(l@),
            Payload::Args(g) => Payload::Args(g@),
            Payload::OptArgs(g) => Payload::OptArgs(
                match g {
                    Option::Some(g) => Option::Some(g@),
                    Option::None => Option::None,
                },
            ),
            Payload::Any(t, g) => Payload::Any(opt_view(*t), g@),
        }
    }
}

impl View for Inner<String> {
    type V = Inner<Seq<char>>;

    open spec fn view(&self) -> Inner<Seq<char>> {
        Inner { kw: self.kw, payload: self.payload@ }
    }
}

/// Text of the token trees `from..to`.
pub open spec fn text_of(s: Seq<Tok>, from: int, to: int) -> Seq<char> {
    toks_text(s.subrange(from, to))
}

/// The first comma at or after `i`, or the end.
pub open spec fn first_comma(s: Seq<Tok>, i: int) -> int
    decreases s.len() - i,
{
    if i >= s.len() || is_punct(s[i], ',') {
        i
    } else {
        first_comma(s, i + 1)
    }
}

/// Exactly two comma-separated arguments, `first, second`, both non-empty: no other
/// comma stands at this level.
pub open spec fn two_args(c: Seq<Tok>) -> Option<TwoArgs<Seq<char>>> {
    let k = first_comma(c, 0);
    if k >= 1 && k + 1 < c.len() && first_comma(c, k + 1) == c.len() {
        Option::Some(TwoArgs { first: text_of(c, 0, k), second: text_of(c, k + 1, c.len() as int) })
    } else {
        Option::None
    }
}

/// `"literal", tokens...` with at least one token after the comma.
pub open spec fn any_args(c: Seq<Tok>) -> Option<AnyArgs<Seq<char>>> {
    if c.len() >= 3 && is_str_lit(c[0]) && is_punct(c[1], ',') {
        Option::Some(AnyArgs { metavar: lit_text(c[0]), check_fn: text_of(c, 2, c.len() as int) })
    } else {
        Option::None
    }
}

pub open spec fn group_args(c: Seq<Tok>) -> GroupArgs<Seq<char>> {
    GroupArgs { text: toks_text(c), two: two_args(c), any: any_args(c) }
}

/// One token tree that keeps `<...>` together, among the trees before `e`: the end of
/// the tree starting at `i`. A `<` without a matching `>` counts as a single token.
pub open spec fn angle_tree(s: Seq<Tok>, i: int, e: int) -> Option<int>
    decreases e - i, 0int,
{
    if i < 0 || i >= e || e > s.len() {
        Option::None
    } else if is_punct(s[i], '<') {
        match angle_body(s, i + 1, e) {
            Option::Some(j) => Option::Some(j + 1),
            Option::None => Option::Some(i + 1),
        }
    } else {
        Option::Some(i + 1)
    }
}

/// Trees up to a `>` before `e`: the position of that `>`.
pub open spec fn angle_body(s: Seq<Tok>, j: int, e: int) -> Option<int>
    decreases e - j, 1int,
{
    if j < 0 || j >= e || e > s.len() {
        Option::None
    } else if is_punct(s[j], '>') {
        Option::Some(j)
    } else {
        match angle_tree(s, j, e) {
            Option::Some(k) => if j < k <= e {
                angle_body(s, k, e)
            } else {
                Option::None
            },
            Option::None => Option::None,
        }
    }
}

/// Trees until the character `c` or the bound `e`, starting at `i`: where they stop.
pub open spec fn verbatim_rest(s: Seq<Tok>, i: int, c: char, e: int) -> int
    decreases e - i,
{
    if i < 0 || i >= e || e > s.len() || is_punct(s[i], c) {
        i
    } else {
        match angle_tree(s, i, e) {
            Option::Some(k) => if i < k <= e {
                verbatim_rest(s, k, c, e)
            } else {
                i
            },
            Option::None => i,
        }
    }
}

/// At least one tree before the character `c` or the bound `e`: where they stop.
pub open spec fn verbatim_until(s: Seq<Tok>, i: int, c: char, e: int) -> Option<int> {
    let k = verbatim_rest(s, i, c, e);
    if k > i {
        Option::Some(k)
    } else {
        Option::None
    }
}

/// A parenthesized group holding exactly one string literal.
pub open spec fn paren_str(t: Tok) -> bool {
    is_paren(t) && inner(t).len() == 1 && is_str_lit(inner(t)[0])
}

/// A parenthesized group holding exactly one character literal.
pub open spec fn paren_char(t: Tok) -> bool {
    is_paren(t) && inner(t).len() == 1 && is_char_lit(inner(t)[0])
}

/// A parenthesized group holding exactly one identifier.
pub open spec fn paren_ident(t: Tok) -> bool {
    is_paren(t) && inner(t).len() == 1 && is_ident(inner(t)[0])
}

pub open spec fn ident_text(t: Tok) -> Seq<char> {
    match t {
        Tok::Ident(s) => s@,
        _ => Seq::empty(),
    }
}

/// `::<Type>` at `j`: the type's text and the position after `>`.
pub open spec fn turbofish(s: Seq<Tok>, j: int) -> Option<(Seq<char>, int)> {
    if 0 <= j && j + 3 < s.len() && is_punct(s[j], ':') && is_punct(s[j + 1], ':') && is_punct(
        s[j + 2],
        '<',
    ) {
        match verbatim_until(s, j + 3, '>', s.len() as int) {
            Option::Some(k) => if k < s.len() && is_punct(s[k], '>') {
                Option::Some((angle_text(s.subrange(j + 3, k)), k + 1))
            } else {
                Option::None
            },
            Option::None => Option::None,
        }
    } else {
        Option::None
    }
}

/// What follows an item's word at `j`.
pub open spec fn shape_at(s: Seq<Tok>, j: int, sh: Shape) -> Option<(Payload<Seq<char>>, int)> {
    let here = 0 <= j < s.len();
    match sh {
        Shape::Bare => Option::Some((Payload::Nothing, j)),
        Shape::OptStr => if here && paren_str(s[j]) {
            Option::Some((Payload::OptLit(Option::Some(lit_text(inner(s[j])[0]))), j + 1))
        } else {
            Option::Some((Payload::OptLit(Option::None), j))
        },
        Shape::OptChar => if here && paren_char(s[j]) {
            Option::Some((Payload::OptChar(Option::Some(char_lit_value(inner(s[j])[0]))), j + 1))
        } else {
            Option::Some((Payload::OptChar(Option::None), j))
        },
        Shape::Group => if here && is_paren(s[j]) {
            Option::Some((Payload::Args(group_args(inner(s[j]))), j + 1))
        } else {
            Option::None
        },
        Shape::Str => if here && paren_str(s[j]) {
            Option::Some((Payload::Lit(lit_text(inner(s[j])[0])), j + 1))
        } else {
            Option::None
        },
        Shape::IdentGroup => if here && paren_ident(s[j]) {
            Option::Some((Payload::Ident(ident_text(inner(s[j])[0])), j + 1))
        } else {
            Option::None
        },
        Shape::OptGroup => if here && is_paren(s[j]) {
            Option::Some((Payload::OptArgs(Option::Some(group_args(inner(s[j])))), j + 1))
        } else {
            Option::Some((Payload::OptArgs(Option::None), j))
        },
        Shape::Turbofish => {
            let (ty, k) = match turbofish(s, j) {
                Option::Some((t, k)) => (Option::Some(t), k),
                Option::None => (Option::None, j),
            };
            if 0 <= k < s.len() && is_paren(s[k]) {
                Option::Some((Payload::Any(ty, group_args(inner(s[k]))), k + 1))
            } else {
                Option::None
            }
        },
    }
}

/// The keyword of the token at `i`, if it is one.
pub open spec fn kw_at(s: Seq<Tok>, i: int) -> Option<Kw> {
    if 0 <= i < s.len() && is_ident(s[i]) {
        kw_of(ident_text(s[i]))
    } else {
        Option::None
    }
}

/// One item of `#[bpaf(...)]` at `i`: a known word with what must follow it, or else
/// every token up to the next comma as an item that is not understood.
pub open spec fn parse_inner(s: Seq<Tok>, i: int) -> Option<(Inner<Seq<char>>, int)> {
    if i < 0 || i >= s.len() || is_punct(s[i], ',') {
        Option::None
    } else {
        let known = match kw_at(s, i) {
            Option::Some(k) => match shape_at(s, i + 1, shape_of(k)) {
                Option::Some((p, j)) => Option::Some((Inner { kw: Option::Some(k), payload: p }, j)),
                Option::None => Option::None,
            },
            Option::None => Option::None,
        };
        match known {
            Option::Some(r) => Option::Some(r),
            Option::None => Option::Some(
                (Inner { kw: Option::None, payload: Payload::Nothing }, first_comma(s, i)),
            ),
        }
    }
}

/// Comma separated items from `i` to the end (a trailing comma is allowed).
pub open spec fn inner_list(s: Seq<Tok>, i: int) -> Option<Seq<Inner<Seq<char>>>>
    decreases s.len() - i,
{
    match parse_inner(s, i) {
        Option::None => if i == s.len() {
            Option::Some(Seq::empty())
        } else {
            Option::None
        },
        Option::Some((x, j)) => if j <= i {
            Option::None
        } else if j < s.len() && is_punct(s[j], ',') {
            match inner_list(s, j + 1) {
                Option::Some(rest) => Option::Some(seq![x] + rest),
                Option::None => Option::None,
            }
        } else if j == s.len() {
            Option::Some(seq![x])
        } else {
            Option::None
        },
    }
}

// ----------------------------------------------------------------------------
// executable counterparts

fn first_comma_exec(v: &Vec<Tok>, i: usize) -> (r: usize)
    requires
        i <= v@.len(),
    ensures
        r == first_comma(v@, i as int),
        i <= r <= v@.len(),
    decreases v@.len() - i,
{
    if i >= v.len() || tok_is_punct(&v[i], ',') {
        i
    } else {
        first_comma_exec(v, i + 1)
    }
}

/// The three readings of a group's content.
pub fn group_args_exec(c: &Vec<Tok>) -> (r: GroupArgs<String>)
    ensures
        r@ == group_args(c@),
{
    let text = range_text(c, 0, c.len());
    assert(c@.subrange(0, c@.len() as int) =~= c@);
    let k = first_comma_exec(c, 0);
    let two = if k >= 1 && k < c.len() && k + 1 < c.len() && first_comma_exec(c, k + 1) == c.len() {
        Option::Some(TwoArgs { first: range_text(c, 0, k), second: range_text(c, k + 1, c.len()) })
    } else {
        Option::None
    };
    let any = if c.len() >= 3 && tok_is_punct(&c[1], ',') {
        match &c[0] {
            Tok::Lit(l) => {
                let lt = l.as_str();
                if lt.unicode_len() >= 2 && lt.get_char(0) == '"' {
                    Option::Some(AnyArgs { metavar: copy_text(lt), check_fn: range_text(c, 2, c.len()) })
                } else {
                    Option::None
                }
            },
            _ => Option::None,
        }
    } else {
        Option::None
    };
    GroupArgs { text, two, any }
}

fn angle_tree_exec(v: &Vec<Tok>, i: usize, e: usize) -> (r: Option<usize>)
    requires
        e <= v@.len(),
    ensures
        match r {
            Option::Some(k) => angle_tree(v@, i as int, e as int) == Option::Some(k as int),
            Option::None => angle_tree(v@, i as int, e as int) is None,
        },
        r matches Option::Some(k) ==> i < k <= e,
    decreases e - i, 0int,
{
    if i >= e {
        Option::None
    } else if tok_is_punct(&v[i], '<') {
        match angle_body_exec(v, i + 1, e) {
            Option::Some(j) => Option::Some(j + 1),
            Option::None => Option::Some(i + 1),
        }
    } else {
        Option::Some(i + 1)
    }
}

fn angle_body_exec(v: &Vec<Tok>, j: usize, e: usize) -> (r: Option<usize>)
    requires
        e <= v@.len(),
    ensures
        match r {
            Option::Some(k) => angle_body(v@, j as int, e as int) == Option::Some(k as int),
            Option::None => angle_body(v@, j as int, e as int) is None,
        },
        r matches Option::Some(k) ==> j <= k < e,
    decreases e - j, 1int,
{
    if j >= e {
        Option::None
    } else if tok_is_punct(&v[j], '>') {
        Option::Some(j)
    } else {
        match angle_tree_exec(v, j, e) {
            Option::Some(k) => if k > j {
                angle_body_exec(v, k, e)
            } else {
                Option::None
            },
            Option::None => Option::None,
        }
    }
}

fn verbatim_rest_exec(v: &Vec<Tok>, i: usize, c: char, e: usize) -> (r: usize)
    requires
        i <= e <= v@.len(),
    ensures
        r == verbatim_rest(v@, i as int, c, e as int),
        i <= r <= e,
    decreases e - i,
{
    if i >= e || tok_is_punct(&v[i], c) {
        i
    } else {
        match angle_tree_exec(v, i, e) {
            Option::Some(k) => if k > i {
                verbatim_rest_exec(v, k, c, e)
            } else {
                i
            },
            Option::None => i,
        }
    }
}

/// At least one tree before `c` or the bound `e`, from `i`: where they stop.
pub fn verbatim_until_exec(v: &Vec<Tok>, i: usize, c: char, e: usize) -> (r: Option<usize>)
    requires
        i <= e <= v@.len(),
    ensures
        match r {
            Option::Some(k) => verbatim_until(v@, i as int, c, e as int) == Option::Some(k as int),
            Option::None => verbatim_until(v@, i as int, c, e as int) is None,
        },
        r matches Option::Some(k) ==> i < k <= e,
{
    let k = verbatim_rest_exec(v, i, c, e);
    if k > i {
        Option::Some(k)
    } else {
        Option::None
    }
}

fn paren_inner(t: &Tok) -> (r: Option<&Vec<Tok>>)
    ensures
        r is Some <==> is_paren(*t),
        r matches Option::Some(c) ==> c@ == inner(*t),
{
    match t {
        Tok::Group(Delim::Paren, c) => Option::Some(c),
        _ => Option::None,
    }
}

fn paren_str_exec(t: &Tok) -> (r: Option<String>)
    ensures
        r is Some <==> paren_str(*t),
        r matches Option::Some(l) ==> l@ == lit_text(inner(*t)[0]),
{
    match paren_inner(t) {
        Option::Some(c) => if c.len() == 1 {
            match &c[0] {
                Tok::Lit(l) => {
                    let lt = l.as_str();
                    if lt.unicode_len() >= 2 && lt.get_char(0) == '"' {
                        Option::Some(copy_text(lt))
                    } else {
                        Option::None
                    }
                },
                _ => Option::None,
            }
        } else {
            Option::None
        },
        Option::None => Option::None,
    }
}

fn paren_char_exec(t: &Tok) -> (r: Option<char>)
    ensures
        r is Some <==> paren_char(*t),
        r matches Option::Some(ch) ==> ch == char_lit_value(inner(*t)[0]),
{
    match paren_inner(t) {
        Option::Some(c) => if c.len() == 1 {
            tok_char_lit(&c[0])
        } else {
            Option::None
        },
        Option::None => Option::None,
    }
}

fn paren_ident_exec(t: &Tok) -> (r: Option<String>)
    ensures
        r is Some <==> paren_ident(*t),
        r matches Option::Some(l) ==> l@ == ident_text(inner(*t)[0]),
{
    match paren_inner(t) {
        Option::Some(c) => if c.len() == 1 {
            match &c[0] {
                Tok::Ident(l) => Option::Some(copy_text(l.as_str())),
                _ => Option::None,
            }
        } else {
            Option::None
        },
        Option::None => Option::None,
    }
}

fn turbofish_exec(v: &Vec<Tok>, j: usize) -> (r: Option<(String, usize)>)
    requires
        j <= v@.len(),
    ensures
        match r {
            Option::Some((t, k)) => turbofish(v@, j as int) == Option::Some((t@, k as int)),
            Option::None => turbofish(v@, j as int) is None,
        },
        r matches Option::Some((_, k)) ==> j < k <= v@.len(),
{
    if j < v.len() && v.len() - j > 3 && tok_is_punct(&v[j], ':') && tok_is_punct(&v[j + 1], ':')
        && tok_is_punct(&v[j + 2], '<') {
        match verbatim_until_exec(v, j + 3, '>', v.len()) {
            Option::Some(k) => if k < v.len() && tok_is_punct(&v[k], '>') {
                Option::Some((range_angle_text(v, j + 3, k), k + 1))
            } else {
                Option::None
            },
            Option::None => Option::None,
        }
    } else {
        Option::None
    }
}

fn shape_at_exec(v: &Vec<Tok>, j: usize, sh: Shape) -> (r: Option<(Payload<String>, usize)>)
    requires
        j <= v@.len(),
    ensures
        match r {
            Option::Some((p, k)) => shape_at(v@, j as int, sh) == Option::Some((p@, k as int)),
            Option::None => shape_at(v@, j as int, sh) is None,
        },
        r matches Option::Some((_, k)) ==> j <= k <= v@.len(),
{
    let here = j < v.len();
    match sh {
        Shape::Bare => Option::Some((Payload::Nothing, j)),
        Shape::OptStr => {
            let l = if here {
                paren_str_exec(&v[j])
            } else {
                Option::None
            };
            match l {
                Option::Some(l) => Option::Some((Payload::OptLit(Option::Some(l)), j + 1)),
                Option::None => Option::Some((Payload::OptLit(Option::None), j)),
            }
        },
        Shape::OptChar => {
            let l = if here {
                paren_char_exec(&v[j])
            } else {
                Option::None
            };
            match l {
                Option::Some(l) => Option::Some((Payload::OptChar(Option::Some(l)), j + 1)),
                Option::None => Option::Some((Payload::OptChar(Option::None), j)),
            }
        },
        Shape::Group => if here {
            match paren_inner(&v[j]) {
                Option::Some(c) => Option::Some((Payload::Args(group_args_exec(c)), j + 1)),
                Option::None => Option::None,
            }
        } else {
            Option::None
        },
        Shape::Str => if here {
            match paren_str_exec(&v[j]) {
                Option::Some(l) => Option::Some((Payload::Lit(l), j + 1)),
                Option::None => Option::None,
            }
        } else {
            Option::None
        },
        Shape::IdentGroup => if here {
            match paren_ident_exec(&v[j]) {
                Option::Some(l) => Option::Some((Payload::Ident(l), j + 1)),
                Option::None => Option::None,
            }
        } else {
            Option::None
        },
        Shape::OptGroup => {
            let g = if here {
                paren_inner(&v[j])
            } else {
                Option::None
            };
            match g {
                Option::Some(c) => Option::Some(
                    (Payload::OptArgs(Option::Some(group_args_exec(c))), j + 1),
                ),
                Option::None => Option::Some((Payload::OptArgs(Option::None), j)),
            }
        },
        Shape::Turbofish => {
            let (ty, k) = match turbofish_exec(v, j) {
                Option::Some((t, k)) => (Option::Some(t), k),
                Option::None => (Option::None, j),
            };
            if k < v.len() {
                match paren_inner(&v[k]) {
                    Option::Some(c) => Option::Some((Payload::Any(ty, group_args_exec(c)), k + 1)),
                    Option::None => Option::None,
                }
            } else {
                Option::None
            }
        },
    }
}

fn shape_of_exec(k: Kw) -> (r: Shape)
    ensures
        r == shape_of(k),
{
    match k {
        Kw::Command | Kw::Long | Kw::Argument | Kw::Positional => Shape::OptStr,
        Kw::Short => Shape::OptChar,
        Kw::Env | Kw::Flag | Kw::ReqFlag | Kw::Pure | Kw::PureWith | Kw::MapFn | Kw::Parse
        | Kw::SomeMsg | Kw::Guard | Kw::CustomUsage | Kw::FallbackWith | Kw::GroupHelp
        | Kw::FormatFallback | Kw::Complete | Kw::CompleteShell | Kw::Fallback | Kw::Path
        | Kw::Descr | Kw::Footer | Kw::Header | Kw::Usage | Kw::Version | Kw::MaxWidth => Shape::Group,
        Kw::Group | Kw::Help | Kw::CargoHelper => Shape::Str,
        Kw::Generate => Shape::IdentGroup,
        Kw::External => Shape::OptGroup,
        Kw::Any => Shape::Turbofish,
        _ => Shape::Bare,
    }
}

/// One item of `#[bpaf(...)]` at `i`.
pub fn parse_inner_exec(v: &Vec<Tok>, i: usize) -> (r: Option<(Inner<String>, usize)>)
    requires
        i <= v@.len(),
    ensures
        match r {
            Option::Some((x, j)) => parse_inner(v@, i as int) == Option::Some((x@, j as int)),
            Option::None => parse_inner(v@, i as int) is None,
        },
        r matches Option::Some((_, j)) ==> i < j <= v@.len(),
{
    if i >= v.len() || tok_is_punct(&v[i], ',') {
        return Option::None;
    }
    let k = match &v[i] {
        Tok::Ident(w) => kw_lookup(w.as_str()),
        _ => Option::None,
    };
    let known = match k {
        Option::Some(k) => match shape_at_exec(v, i + 1, shape_of_exec(k)) {
            Option::Some((p, j)) => Option::Some((Inner { kw: Option::Some(k), payload: p }, j)),
            Option::None => Option::None,
        },
        Option::None => Option::None,
    };
    match known {
        Option::Some(r) => Option::Some(r),
        Option::None => {
            let j = first_comma_exec(v, i + 1);
            Option::Some((Inner { kw: Option::None, payload: Payload::Nothing }, j))
        },
    }
}

pub open spec fn inners_view(v: Seq<Inner<String>>) -> Seq<Inner<Seq<char>>> {
    v.map_values(|x: Inner<String>| x@)
}

/// Comma separated items from `i` to the end.
pub fn inner_list_exec(v: &Vec<Tok>, i: usize) -> (r: Option<Vec<Inner<String>>>)
    requires
        i <= v@.len(),
    ensures
        match r {
            Option::Some(l) => inner_list(v@, i as int) == Option::Some(inners_view(l@)),
            Option::None => inner_list(v@, i as int) is None,
        },
    decreases v@.len() - i,
{
    match parse_inner_exec(v, i) {
        Option::None => if i == v.len() {
            let e: Vec<Inner<String>> = Vec::new();
            assert(inners_view(e@) =~= Seq::empty());
            Option::Some(e)
        } else {
            Option::None
        },
        Option::Some((x, j)) => if j < v.len() && tok_is_punct(&v[j], ',') {
            match inner_list_exec(v, j + 1) {
                Option::Some(rest) => {
                    let mut out: Vec<Inner<String>> = Vec::new();
                    let ghost xv = x@;
                    out.push(x);
                    let mut rest = rest;
                    let ghost rv = rest@;
                    out.append(&mut rest);
                    assert(inners_view(out@) =~= seq![xv] + inners_view(rv));
                    Option::Some(out)
                },
                Option::None => Option::None,
            }
        } else if j == v.len() {
            let mut out: Vec<Inner<String>> = Vec::new();
            let ghost xv = x@;
            out.push(x);
            assert(inners_view(out@) =~= seq![xv]);
            Option::Some(out)
        } else {
            Option::None
        },
    }
}

/// What one outer attribute `#[...]` holds, as far as this crate reads it.
pub enum AttrSpec {
    /// `bpaf(...)` with its items
    Bpaf(Seq<Inner<Seq<char>>>),
    /// `doc = "..."` with the literal's content
    Doc(Seq<char>),
    /// anything else
    Other,
}

/// The content of `#[...]`: `bpaf(items)` or `doc = "text"` taking the whole content,
/// else any other attribute. `None` when a `bpaf(...)` or `doc = ".."` that parses is
/// followed by more tokens.
pub open spec fn attr_of(c: Seq<Tok>) -> Option<AttrSpec> {
    if c.len() >= 2 && is_kw(c[0], "bpaf"@) && is_paren(c[1]) && inner_list(inner(c[1]), 0) is Some {
        if c.len() == 2 {
            Option::Some(AttrSpec::Bpaf(inner_list(inner(c[1]), 0).unwrap()))
        } else {
            Option::None
        }
    } else if c.len() >= 3 && is_kw(c[0], "doc"@) && is_punct(c[1], '=') && is_str_lit(c[2]) {
        if c.len() == 3 {
            Option::Some(AttrSpec::Doc(str_lit_content(c[2])))
        } else {
            Option::None
        }
    } else {
        Option::Some(AttrSpec::Other)
    }
}

/// `#[...]` at `i`.
pub open spec fn outer_attr(s: Seq<Tok>, i: int) -> Option<(AttrSpec, int)> {
    if 0 <= i && i + 1 < s.len() && is_punct(s[i], '#') && is_bracket(s[i + 1]) {
        match attr_of(inner(s[i + 1])) {
            Option::Some(a) => Option::Some((a, i + 2)),
            Option::None => Option::None,
        }
    } else {
        Option::None
    }
}

/// Attributes collected from a run of outer attributes at `i`.
pub struct CollectedSpec {
    /// the item lists of the `bpaf(...)` attributes, in order
    pub bpaf: Seq<Seq<Inner<Seq<char>>>>,
    /// the contents of the `doc = "..."` attributes, in order
    pub docs: Seq<Seq<char>>,
    /// where the run ends
    pub end: int,
}

/// All consecutive outer attributes from `i`.
pub open spec fn attrs_from(s: Seq<Tok>, i: int) -> CollectedSpec
    decreases s.len() - i,
{
    match outer_attr(s, i) {
        Option::Some((a, j)) => if i < j <= s.len() {
            let rest = attrs_from(s, j);
            match a {
                AttrSpec::Bpaf(l) => CollectedSpec { bpaf: seq![l] + rest.bpaf, ..rest },
                AttrSpec::Doc(d) => CollectedSpec { docs: seq![d] + rest.docs, ..rest },
                AttrSpec::Other => rest,
            }
        } else {
            CollectedSpec { bpaf: Seq::empty(), docs: Seq::empty(), end: i }
        },
        Option::None => CollectedSpec { bpaf: Seq::empty(), docs: Seq::empty(), end: i },
    }
}

/// Where a visibility modifier `pub` / `pub(...)` at `i` ends (`i` if there is none).
pub open spec fn vis_end(s: Seq<Tok>, i: int) -> int {
    if 0 <= i < s.len() && is_kw(s[i], "pub"@) {
        if i + 1 < s.len() && is_paren(s[i + 1]) {
            i + 2
        } else {
            i + 1
        }
    } else {
        i
    }
}

/// The shape of a field's type with inner type included
pub enum TypeShape<S = String> {
    /// bool type
    Bool,
    /// () unit type
    Unit,
    /// Option<T>
    Optional(S),
    /// Vec<T>
    Multiple(S),
    /// Any other type T
    Direct(S),
}

impl View for TypeShape<String> {
    type V = TypeShape<Seq<char>>;

    open spec fn view(&self) -> TypeShape<Seq<char>> {
        match self {
            TypeShape::Bool => TypeShape::Bool,
            TypeShape::Unit => TypeShape::Unit,
            TypeShape::Optional(t) => TypeShape::Optional(t@),
            TypeShape::Multiple(t) => TypeShape::Multiple(t@),
            TypeShape::Direct(t) => TypeShape::Direct(t@),
        }
    }
}

/// `W<...>` at the start of the tokens `from..to` for the word `w`: the text between
/// the brackets.
pub open spec fn wrapper_arg(t: Seq<Tok>, from: int, to: int, w: Seq<char>) -> Option<Seq<char>> {
    if 0 <= from && from + 2 <= to <= t.len() && is_kw(t[from], w) && is_punct(t[from + 1], '<') {
        match verbatim_until(t, from + 2, '>', to) {
            Option::Some(k) => if k < to && is_punct(t[k], '>') {
                Option::Some(angle_text(t.subrange(from + 2, k)))
            } else {
                Option::None
            },
            Option::None => Option::None,
        }
    } else {
        Option::None
    }
}

/// The shape of the type written by the tokens `from..to`: `Option<..>`, `Vec<..>`,
/// `bool` and `()` by their first tokens, else the whole type; a non-empty
/// parenthesized group at the start is skipped. `None` when no token is left to form
/// the type.
pub open spec fn type_shape(t: Seq<Tok>, from: int, to: int) -> Option<TypeShape<Seq<char>>> {
    if !(0 <= from <= to <= t.len()) {
        Option::None
    } else if wrapper_arg(t, from, to, "Option"@) is Some {
        Option::Some(TypeShape::Optional(wrapper_arg(t, from, to, "Option"@).unwrap()))
    } else if wrapper_arg(t, from, to, "Vec"@) is Some {
        Option::Some(TypeShape::Multiple(wrapper_arg(t, from, to, "Vec"@).unwrap()))
    } else if from < to && is_kw(t[from], "bool"@) {
        Option::Some(TypeShape::Bool)
    } else if from < to && is_paren(t[from]) && inner(t[from]).len() == 0 {
        Option::Some(TypeShape::Unit)
    } else if from == to {
        Option::None
    } else {
        Option::Some(TypeShape::Direct(text_of(t, from, to)))
    }
}

// ----------------------------------------------------------------------------
// executable counterparts

/// What one outer attribute holds.
pub enum Attr {
    Bpaf(Vec<Inner<String>>),
    Doc(String),
    Other,
}

pub open spec fn attr_view(a: Attr) -> AttrSpec {
    match a {
        Attr::Bpaf(l) => AttrSpec::Bpaf(inners_view(l@)),
        Attr::Doc(d) => AttrSpec::Doc(d@),
        Attr::Other => AttrSpec::Other,
    }
}

fn attr_of_exec(c: &Vec<Tok>) -> (r: Option<Attr>)
    ensures
        match r {
            Option::Some(a) => attr_of(c@) == Option::Some(attr_view(a)),
            Option::None => attr_of(c@) is None,
        },
{
    if c.len() >= 2 && tok_is_kw(&c[0], "bpaf") {
        if let Option::Some(g) = paren_inner(&c[1]) {
            if let Option::Some(l) = inner_list_exec(g, 0) {
                if c.len() == 2 {
                    return Option::Some(Attr::Bpaf(l));
                } else {
                    return Option::None;
                }
            }
        }
    }
    if c.len() >= 3 && tok_is_kw(&c[0], "doc") && tok_is_punct(&c[1], '=') {
        if let Option::Some(d) = tok_str_lit(&c[2]) {
            if c.len() == 3 {
                return Option::Some(Attr::Doc(d));
            } else {
                return Option::None;
            }
        }
    }
    Option::Some(Attr::Other)
}

fn bracket_inner(t: &Tok) -> (r: Option<&Vec<Tok>>)
    ensures
        r is Some <==> is_bracket(*t),
        r matches Option::Some(c) ==> c@ == inner(*t),
{
    match t {
        Tok::Group(Delim::Bracket, c) => Option::Some(c),
        _ => Option::None,
    }
}

fn outer_attr_exec(s: &Vec<Tok>, i: usize) -> (r: Option<(Attr, usize)>)
    requires
        i <= s@.len(),
    ensures
        match r {
            Option::Some((a, j)) => outer_attr(s@, i as int) == Option::Some((attr_view(a), j as int)),
            Option::None => outer_attr(s@, i as int) is None,
        },
        r matches Option::Some((_, j)) ==> j == i + 2 && j <= s@.len(),
{
    if i < s.len() && s.len() - i >= 2 && tok_is_punct(&s[i], '#') {
        if let Option::Some(c) = bracket_inner(&s[i + 1]) {
            return match attr_of_exec(c) {
                Option::Some(a) => Option::Some((a, i + 2)),
                Option::None => Option::None,
            };
        }
    }
    Option::None
}

/// Attributes collected from a run of outer attributes.
pub struct Collected {
    pub bpaf: Vec<Vec<Inner<String>>>,
    pub docs: Vec<String>,
    pub end: usize,
}

pub open spec fn lists_view(v: Seq<Vec<Inner<String>>>) -> Seq<Seq<Inner<Seq<char>>>> {
    v.map_values(|l: Vec<Inner<String>>| inners_view(l@))
}

pub open spec fn texts_view(v: Seq<String>) -> Seq<Seq<char>> {
    v.map_values(|t: String| t@)
}

impl View for Collected {
    type V = CollectedSpec;

    open spec fn view(&self) -> CollectedSpec {
        CollectedSpec { bpaf: lists_view(self.bpaf@), docs: texts_view(self.docs@), end: self.end as int }
    }
}

/// All consecutive outer attributes from `i`.
pub fn attrs_from_exec(s: &Vec<Tok>, i: usize) -> (r: Collected)
    requires
        i <= s@.len(),
    ensures
        r@ == attrs_from(s@, i as int),
        i <= r.end <= s@.len(),
    decreases s@.len() - i,
{
    match outer_attr_exec(s, i) {
        Option::Some((a, j)) => {
            let rest = attrs_from_exec(s, j);
            let ghost rv = rest@;
            match a {
                Attr::Bpaf(l) => {
                    let ghost lv = inners_view(l@);
                    let mut bpaf: Vec<Vec<Inner<String>>> = Vec::new();
                    bpaf.push(l);
                    let mut rb = rest.bpaf;
                    let ghost rbv = rb@;
                    bpaf.append(&mut rb);
                    assert(lists_view(bpaf@) =~= seq![lv] + lists_view(rbv));
                    Collected { bpaf, docs: rest.docs, end: rest.end }
                },
                Attr::Doc(d) => {
                    let ghost dv = d@;
                    let mut docs: Vec<String> = Vec::new();
                    docs.push(d);
                    let mut rd = rest.docs;
                    let ghost rdv = rd@;
                    docs.append(&mut rd);
                    assert(texts_view(docs@) =~= seq![dv] + texts_view(rdv));
                    Collected { bpaf: rest.bpaf, docs, end: rest.end }
                },
                Attr::Other => rest,
            }
        },
        Option::None => {
            let r = Collected { bpaf: Vec::new(), docs: Vec::new(), end: i };
            assert(r@.bpaf =~= Seq::empty());
            assert(r@.docs =~= Seq::empty());
            r
        },
    }
}

/// Where a visibility modifier at `i` ends.
pub fn vis_end_exec(s: &Vec<Tok>, i: usize) -> (r: usize)
    requires
        i <= s@.len(),
    ensures
        r == vis_end(s@, i as int),
        i <= r <= s@.len(),
{
    if i < s.len() && tok_is_kw(&s[i], "pub") {
        if i + 1 < s.len() && paren_inner(&s[i + 1]).is_some() {
            i + 2
        } else {
            i + 1
        }
    } else {
        i
    }
}

fn wrapper_arg_exec(t: &Vec<Tok>, from: usize, to: usize, w: &str) -> (r: Option<String>)
    requires
        from <= to <= t@.len(),
    ensures
        match r {
            Option::Some(a) => wrapper_arg(t@, from as int, to as int, w@) == Option::Some(a@),
            Option::None => wrapper_arg(t@, from as int, to as int, w@) is None,
        },
{
    if to - from >= 2 && tok_is_kw(&t[from], w) && tok_is_punct(&t[from + 1], '<') {
        match verbatim_until_exec(t, from + 2, '>', to) {
            Option::Some(k) => if k < to && tok_is_punct(&t[k], '>') {
                Option::Some(range_angle_text(t, from + 2, k))
            } else {
                Option::None
            },
            Option::None => Option::None,
        }
    } else {
        Option::None
    }
}

/// The shape of the type written by the tokens `from..to`.
pub fn type_shape_exec(t: &Vec<Tok>, from: usize, to: usize) -> (r: Option<TypeShape>)
    requires
        from <= to <= t@.len(),
    ensures
        match r {
            Option::Some(sh) => type_shape(t@, from as int, to as int) == Option::Some(sh@),
            Option::None => type_shape(t@, from as int, to as int) is None,
        },
{
    if let Option::Some(a) = wrapper_arg_exec(t, from, to, "Option") {
        return Option::Some(TypeShape::Optional(a));
    }
    if let Option::Some(a) = wrapper_arg_exec(t, from, to, "Vec") {
        return Option::Some(TypeShape::Multiple(a));
    }
    if from < to && tok_is_kw(&t[from], "bool") {
        return Option::Some(TypeShape::Bool);
    }
    if from < to {
        if let Option::Some(g) = paren_inner(&t[from]) {
            if g.len() == 0 {
                return Option::Some(TypeShape::Unit);
            }
        }
    }
    if from == to {
        Option::None
    } else {
        Option::Some(TypeShape::Direct(range_text(t, from, to)))
    }
}

impl TypeShape {
    /// The shape of the type written by the tokens `t`.
    pub fn of_tokens(t: &Vec<Tok>) -> (r: Option<TypeShape>)
        ensures
            match r {
                Option::Some(sh) => type_shape(t@, 0, t@.len() as int) == Option::Some(sh@),
                Option::None => type_shape(t@, 0, t@.len() as int) is None,
            },
    {
        type_shape_exec(t, 0, t.len())
    }
}

/// The type that `Option`/`Vec` wrap, or the type itself; none for `bool` and `()`.
pub open spec fn inner_type_of(sh: TypeShape<Seq<char>>) -> Option<Seq<char>> {
    match sh {
        TypeShape::Optional(t) => Option::Some(t),
        TypeShape::Multiple(t) => Option::Some(t),
        TypeShape::Direct(t) => Option::Some(t),
        _ => Option::None,
    }
}

impl TypeShape {
    /// Get the inner type for Optional/Multiple/Direct, none for Bool/Unit
    pub fn inner_type(&self) -> (r: Option<String>)
        ensures
            match r {
                Option::Some(t) => inner_type_of(self@) == Option::Some(t@),
                Option::None => inner_type_of(self@) is None,
            },
    {
        match self {
            TypeShape::Bool | TypeShape::Unit => Option::None,
            TypeShape::Optional(inner) | TypeShape::Multiple(inner) | TypeShape::Direct(inner) => {
                Option::Some(copy_text(inner.as_str()))
            },
        }
    }

    /// Returns true if this is an Optional<T> type
    pub fn is_optional(&self) -> (r: bool)
        ensures
            r == self is Optional,
    {
        matches!(self, TypeShape::Optional(_))
    }

    /// Returns true if this is a Vec<T> type
    pub fn is_multiple(&self) -> (r: bool)
        ensures
            r == self is Multiple,
    {
        matches!(self, TypeShape::Multiple(_))
    }

    /// Returns true if this is a bool type
    pub fn is_bool(&self) -> (r: bool)
        ensures
            r == self is Bool,
    {
        matches!(self, TypeShape::Bool)
    }

    /// Returns true if this is a () unit type
    pub fn is_unit(&self) -> (r: bool)
        ensures
            r == self is Unit,
    {
        matches!(self, TypeShape::Unit)
    }
}

} // verus!
