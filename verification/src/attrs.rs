//! Attribute parsing for #[bpaf(...)] annotations
use crate::case::{custom_case, to_kebab_case};
use crate::error::DeriveError;
use crate::grammar::{AnyArgs, GroupArgs, TwoArgs, Inner, Kw, Payload, inners_view, lists_view, texts_view};
use crate::tokens::{copy_text, push_text, sub_text};
use vstd::prelude::*;

verus! {

/// The type of consumer to use for parsing
#[allow(inconsistent_fields)]
pub enum ConsumerType<S = String> {
    /// Use as a switch (bool, no value)
    Switch,
    /// Use as a flag with values (bool with present/absent values)
    Flag { present: S, absent: S },
    /// Parse as an argument with a value
    Argument { metavar: Option<S> },
    /// Parse as a positional argument
    Positional { metavar: Option<S> },
    /// Required flag with value
    ReqFlag { present: S },
    /// Custom validation with metavar
    Any { metavar: S, ty: Option<S>, check: S },
    /// Reference external parser
    External { ident: Option<S> },
    /// Pure value (no parsing)
    Pure { expr: S },
    /// Pure value with function
    PureWith { expr: S },
}

/// Post-processing attribute (can change type or just behavior)
pub enum Post<S = String> {
    /// Type-changing post-processing (map, parse, optional, etc.)
    Parse(PostParse<S>),
    /// Behavior-changing decorators (guard, hide, fallback_with, etc.)
    Decor(PostDecor<S>),
}

/// Type-changing post-processing attributes
pub enum PostParse<S = String> {
    /// map - transform the parsed value
    MapFn { f: S },
    /// parse - custom parsing function
    Parse { f: S },
    /// optional - make the parser optional
    Optional,
    /// many - parse multiple occurrences (explicit)
    Many,
    /// some - require at least one with error message
    SomeMsg { msg: S },
    /// catch - catch parse errors
    Catch,
    /// collect - collect into collection
    Collect,
    /// count - count occurrences
    Count,
    /// anywhere - parse anywhere in arguments
    Anywhere,
    /// adjacent - parse adjacent values
    Adjacent,
    /// strict - strict parsing
    Strict,
    /// non_strict - non-strict parsing
    NonStrict,
}

/// Behavior-changing decorator attributes
pub enum PostDecor<S = String> {
    /// guard - validation with error message
    Guard { check: S, msg: S },
    /// hide - hide from help
    Hide,
    /// hide_usage - hide from usage line
    HideUsage,
    /// custom_usage - custom usage text
    CustomUsage { usage: S },
    /// fallback_with - dynamic fallback
    FallbackWith { f: S },
    /// group_help - help for option group
    GroupHelp { doc: S },
    /// debug_fallback - debug format fallback
    DebugFallback,
    /// display_fallback - display format fallback
    DisplayFallback,
    /// format_fallback - custom format fallback
    FormatFallback { formatter: S },
    /// last - use last occurrence
    Last,
    /// complete - shell completion function
    Complete { f: S },
    /// group - completion group
    CompleteGroup { group: S },
    /// complete_shell - shell-specific completion
    CompleteShell { f: S },
}

pub open spec fn ov(o: Option<String>) -> Option<Seq<char>> {
    match o {
        Option::Some(s) => Option::Some(s@),
        Option::None => Option::None,
    }
}

impl View for ConsumerType<String> {
    type V = ConsumerType<Seq<char>>;

    open spec fn view(&self) -> ConsumerType<Seq<char>> {
        match self {
            ConsumerType::Switch => ConsumerType::Switch,
            ConsumerType::Flag { present, absent } => ConsumerType::Flag {
                present: present@,
                absent: absent@,
            },
            ConsumerType::Argument { metavar } => ConsumerType::Argument { metavar: ov(*metavar) },
            ConsumerType::Positional { metavar } => ConsumerType::Positional { metavar: ov(*metavar) },
            ConsumerType::ReqFlag { present } => ConsumerType::ReqFlag { present: present@ },
            ConsumerType::Any { metavar, ty, check } => ConsumerType::Any {
                metavar: metavar@,
                ty: ov(*ty),
                check: check@,
            },
            ConsumerType::External { ident } => ConsumerType::External { ident: ov(*ident) },
            ConsumerType::Pure { expr } => ConsumerType::Pure { expr: expr@ },
            ConsumerType::PureWith { expr } => ConsumerType::PureWith { expr: expr@ },
        }
    }
}

impl View for PostParse<String> {
    type V = PostParse<Seq<char>>;

    open spec fn view(&self) -> PostParse<Seq<char>> {
        match self {
            PostParse::MapFn { f } => PostParse::MapFn { f: f@ },
            PostParse::Parse { f } => PostParse::Parse { f: f@ },
            PostParse::Optional => PostParse::Optional,
            PostParse::Many => PostParse::Many,
            PostParse::SomeMsg { msg } => PostParse::SomeMsg { msg: msg@ },
            PostParse::Catch => PostParse::Catch,
            PostParse::Collect => PostParse::Collect,
            PostParse::Count => PostParse::Count,
            PostParse::Anywhere => PostParse::Anywhere,
            PostParse::Adjacent => PostParse::Adjacent,
            PostParse::Strict => PostParse::Strict,
            PostParse::NonStrict => PostParse::NonStrict,
        }
    }
}

impl View for PostDecor<String> {
    type V = PostDecor<Seq<char>>;

    open spec fn view(&self) -> PostDecor<Seq<char>> {
        match self {
            PostDecor::Guard { check, msg } => PostDecor::Guard { check: check@, msg: msg@ },
            PostDecor::Hide => PostDecor::Hide,
            PostDecor::HideUsage => PostDecor::HideUsage,
            PostDecor::CustomUsage { usage } => PostDecor::CustomUsage { usage: usage@ },
            PostDecor::FallbackWith { f } => PostDecor::FallbackWith { f: f@ },
            PostDecor::GroupHelp { doc } => PostDecor::GroupHelp { doc: doc@ },
            PostDecor::DebugFallback => PostDecor::DebugFallback,
            PostDecor::DisplayFallback => PostDecor::DisplayFallback,
            PostDecor::FormatFallback { formatter } => PostDecor::FormatFallback {
                formatter: formatter@,
            },
            PostDecor::Last => PostDecor::Last,
            PostDecor::Complete { f } => PostDecor::Complete { f: f@ },
            PostDecor::CompleteGroup { group } => PostDecor::CompleteGroup { group: group@ },
            PostDecor::CompleteShell { f } => PostDecor::CompleteShell { f: f@ },
        }
    }
}

impl View for Post<String> {
    type V = Post<Seq<char>>;

    open spec fn view(&self) -> Post<Seq<char>> {
        match self {
            Post::Parse(p) => Post::Parse(p@),
            Post::Decor(d) => Post::Decor(d@),
        }
    }
}

pub open spec fn posts_view(v: Seq<Post<String>>) -> Seq<Post<Seq<char>>> {
    v.map_values(|p: Post<String>| p@)
}

/// Attributes that can be applied to a field
pub struct FieldAttrs {
    /// Short flag name (already resolved from field name if needed)
    pub short: Option<char>,
    /// Long flag name (already resolved from field name if needed)
    pub long: Option<String>,
    /// Environment variable name expression
    pub env: Option<String>,
    /// Help text for the field
    pub help: Option<String>,
    /// Fallback value expression (as tokens)
    pub fallback: Option<String>,
    /// Explicit consumer type
    pub consumer: Option<ConsumerType>,
    /// Post-processing attributes (map, parse, guard, etc.)
    pub postpr: Vec<Post>,
    /// Ignore rustdoc comments for help text
    pub ignore_rustdoc: bool,
}

/// The value of [`FieldAttrs`], texts as character sequences.
pub struct FieldAttrsSpec {
    pub short: Option<char>,
    pub long: Option<Seq<char>>,
    pub env: Option<Seq<char>>,
    pub help: Option<Seq<char>>,
    pub fallback: Option<Seq<char>>,
    pub consumer: Option<ConsumerType<Seq<char>>>,
    pub postpr: Seq<Post<Seq<char>>>,
    pub ignore_rustdoc: bool,
}

impl View for FieldAttrs {
    type V = FieldAttrsSpec;

    open spec fn view(&self) -> FieldAttrsSpec {
        FieldAttrsSpec {
            short: self.short,
            long: ov(self.long),
            env: ov(self.env),
            help: ov(self.help),
            fallback: ov(self.fallback),
            consumer: match self.consumer {
                Option::Some(c) => Option::Some(c@),
                Option::None => Option::None,
            },
            postpr: posts_view(self.postpr@),
            ignore_rustdoc: self.ignore_rustdoc,
        }
    }
}

/// No attribute set.
pub open spec fn empty_field_attrs() -> FieldAttrsSpec {
    FieldAttrsSpec {
        short: Option::None,
        long: Option::None,
        env: Option::None,
        help: Option::None,
        fallback: Option::None,
        consumer: Option::None,
        postpr: Seq::empty(),
        ignore_rustdoc: false,
    }
}

/// The text of a string literal without its first and last character (the quotes).
pub open spec fn lit_content(l: Seq<char>) -> Seq<char> {
    if l.len() >= 2 {
        l.subrange(1, l.len() - 1)
    } else {
        Seq::empty()
    }
}

/// A literal's text without every leading and trailing `"`.
pub open spec fn trim_quotes(l: Seq<char>) -> Seq<char> {
    let a = leading_quotes(l, 0);
    let b = trailing_quotes(l, l.len() as int);
    if a >= b {
        Seq::empty()
    } else {
        l.subrange(a, b)
    }
}

/// The first position at or after `i` that does not hold `"`.
pub open spec fn leading_quotes(l: Seq<char>, i: int) -> int
    decreases l.len() - i,
{
    if i < 0 || i >= l.len() || l[i] != '"' {
        i
    } else {
        leading_quotes(l, i + 1)
    }
}

/// The end of `l.subrange(0, j)` with every trailing `"` removed.
pub open spec fn trailing_quotes(l: Seq<char>, j: int) -> int
    decreases j,
{
    if j <= 0 || j > l.len() || l[j - 1] != '"' {
        j
    } else {
        trailing_quotes(l, j - 1)
    }
}

pub open spec fn payload_text(p: Payload<Seq<char>>) -> Seq<char> {
    match p {
        Payload::Args(g) => g.text,
        _ => Seq::empty(),
    }
}

pub open spec fn payload_lit(p: Payload<Seq<char>>) -> Option<Seq<char>> {
    match p {
        Payload::OptLit(o) => o,
        Payload::Lit(l) => Option::Some(l),
        _ => Option::None,
    }
}

pub open spec fn map_opt_content(o: Option<Seq<char>>) -> Option<Seq<char>> {
    match o {
        Option::Some(l) => Option::Some(lit_content(l)),
        Option::None => Option::None,
    }
}

pub open spec fn with_consumer(fa: FieldAttrsSpec, c: ConsumerType<Seq<char>>) -> FieldAttrsSpec {
    FieldAttrsSpec { consumer: Option::Some(c), ..fa }
}

pub open spec fn with_post(fa: FieldAttrsSpec, p: Post<Seq<char>>) -> FieldAttrsSpec {
    FieldAttrsSpec { postpr: fa.postpr.push(p), ..fa }
}

/// What one item of a field's `#[bpaf(...)]` does to the attributes read so far.
pub open spec fn apply_field_item(fa: FieldAttrsSpec, name: Seq<char>, x: Inner<Seq<char>>) -> Result<
    FieldAttrsSpec,
    DeriveError,
> {
    let p = x.payload;
    match x.kw {
        Option::None => Result::Err(DeriveError::UnknownAttribute),
        Option::Some(k) => match k {
            Kw::Short => Result::Ok(
                FieldAttrsSpec {
                    short: Option::Some(
                        match p {
                            Payload::OptChar(Option::Some(c)) => c,
                            _ => if name.len() > 0 {
                                name[0]
                            } else {
                                '_'
                            },
                        },
                    ),
                    ..fa
                },
            ),
            Kw::Long => Result::Ok(
                FieldAttrsSpec {
                    long: Option::Some(
                        match payload_lit(p) {
                            Option::Some(l) => lit_content(l),
                            Option::None => custom_case(name, '-'),
                        },
                    ),
                    ..fa
                },
            ),
            Kw::Env => Result::Ok(FieldAttrsSpec { env: Option::Some(payload_text(p)), ..fa }),
            Kw::Switch => Result::Ok(with_consumer(fa, ConsumerType::Switch)),
            Kw::Flag => match p {
                Payload::Args(GroupArgs { two: Option::Some(TwoArgs { first: a, second: b }), .. }) => Result::Ok(
                    with_consumer(fa, ConsumerType::Flag { present: a, absent: b }),
                ),
                _ => Result::Err(DeriveError::FlagArgs),
            },
            Kw::Argument => Result::Ok(
                with_consumer(fa, ConsumerType::Argument { metavar: map_opt_content(payload_lit(p)) }),
            ),
            Kw::Positional => Result::Ok(
                with_consumer(
                    fa,
                    ConsumerType::Positional { metavar: map_opt_content(payload_lit(p)) },
                ),
            ),
            Kw::ReqFlag => Result::Ok(
                with_consumer(fa, ConsumerType::ReqFlag { present: payload_text(p) }),
            ),
            Kw::Any => match p {
                Payload::Any(ty, GroupArgs { any: Option::Some(AnyArgs { metavar: m, check_fn: c }), .. }) => Result::Ok(
                    with_consumer(fa, ConsumerType::Any { metavar: lit_content(m), ty, check: c }),
                ),
                _ => Result::Err(DeriveError::AnyArgs),
            },
            Kw::External => Result::Ok(
                with_consumer(
                    fa,
                    ConsumerType::External {
                        ident: match p {
                            Payload::OptArgs(Option::Some(g)) => Option::Some(g.text),
                            _ => Option::None,
                        },
                    },
                ),
            ),
            Kw::Pure => Result::Ok(with_consumer(fa, ConsumerType::Pure { expr: payload_text(p) })),
            Kw::PureWith => Result::Ok(
                with_consumer(fa, ConsumerType::PureWith { expr: payload_text(p) }),
            ),
            Kw::MapFn => Result::Ok(with_post(fa, Post::Parse(PostParse::MapFn { f: payload_text(p) }))),
            Kw::Parse => Result::Ok(with_post(fa, Post::Parse(PostParse::Parse { f: payload_text(p) }))),
            Kw::Optional => Result::Ok(with_post(fa, Post::Parse(PostParse::Optional))),
            Kw::Many => Result::Ok(with_post(fa, Post::Parse(PostParse::Many))),
            Kw::SomeMsg => Result::Ok(
                with_post(fa, Post::Parse(PostParse::SomeMsg { msg: payload_text(p) })),
            ),
            Kw::Catch => Result::Ok(with_post(fa, Post::Parse(PostParse::Catch))),
            Kw::Collect => Result::Ok(with_post(fa, Post::Parse(PostParse::Collect))),
            Kw::Count => Result::Ok(with_post(fa, Post::Parse(PostParse::Count))),
            Kw::Anywhere => Result::Ok(with_post(fa, Post::Parse(PostParse::Anywhere))),
            Kw::Adjacent => Result::Ok(with_post(fa, Post::Parse(PostParse::Adjacent))),
            Kw::Strict => Result::Ok(with_post(fa, Post::Parse(PostParse::Strict))),
            Kw::NonStrict => Result::Ok(with_post(fa, Post::Parse(PostParse::NonStrict))),
            Kw::Guard => match p {
                Payload::Args(GroupArgs { two: Option::Some(TwoArgs { first: a, second: b }), .. }) => Result::Ok(
                    with_post(fa, Post::Decor(PostDecor::Guard { check: a, msg: b })),
                ),
                _ => Result::Err(DeriveError::GuardArgs),
            },
            Kw::Hide => Result::Ok(with_post(fa, Post::Decor(PostDecor::Hide))),
            Kw::HideUsage => Result::Ok(with_post(fa, Post::Decor(PostDecor::HideUsage))),
            Kw::CustomUsage => Result::Ok(
                with_post(fa, Post::Decor(PostDecor::CustomUsage { usage: payload_text(p) })),
            ),
            Kw::FallbackWith => Result::Ok(
                with_post(fa, Post::Decor(PostDecor::FallbackWith { f: payload_text(p) })),
            ),
            Kw::GroupHelp => Result::Ok(
                with_post(fa, Post::Decor(PostDecor::GroupHelp { doc: payload_text(p) })),
            ),
            Kw::DebugFallback => Result::Ok(with_post(fa, Post::Decor(PostDecor::DebugFallback))),
            Kw::DisplayFallback => Result::Ok(
                with_post(fa, Post::Decor(PostDecor::DisplayFallback)),
            ),
            Kw::FormatFallback => Result::Ok(
                with_post(
                    fa,
                    Post::Decor(PostDecor::FormatFallback { formatter: payload_text(p) }),
                ),
            ),
            Kw::Last => Result::Ok(with_post(fa, Post::Decor(PostDecor::Last))),
            Kw::Complete => Result::Ok(
                with_post(fa, Post::Decor(PostDecor::Complete { f: payload_text(p) })),
            ),
            Kw::Group => Result::Ok(
                with_post(
                    fa,
                    Post::Decor(
                        PostDecor::CompleteGroup {
                            group: match payload_lit(p) {
                                Option::Some(l) => lit_content(l),
                                Option::None => Seq::empty(),
                            },
                        },
                    ),
                ),
            ),
            Kw::CompleteShell => Result::Ok(
                with_post(fa, Post::Decor(PostDecor::CompleteShell { f: payload_text(p) })),
            ),
            Kw::Help => Result::Ok(
                FieldAttrsSpec {
                    help: Option::Some(
                        match payload_lit(p) {
                            Option::Some(l) => lit_content(l),
                            Option::None => Seq::empty(),
                        },
                    ),
                    ..fa
                },
            ),
            Kw::Fallback => Result::Ok(
                FieldAttrsSpec { fallback: Option::Some(payload_text(p)), ..fa },
            ),
            Kw::IgnoreRustdoc => Result::Ok(FieldAttrsSpec { ignore_rustdoc: true, ..fa }),
            // items of a struct, an enum or a variant: no effect on a field
            _ => Result::Ok(fa),
        },
    }
}

/// The items of one `#[bpaf(...)]`, applied in order; the first refusal stops.
pub open spec fn apply_field_items(
    fa: FieldAttrsSpec,
    name: Seq<char>,
    items: Seq<Inner<Seq<char>>>,
) -> Result<FieldAttrsSpec, DeriveError>
    decreases items.len(),
{
    if items.len() == 0 {
        Result::Ok(fa)
    } else {
        match apply_field_item(fa, name, items[0]) {
            Result::Ok(fa2) => apply_field_items(fa2, name, items.drop_first()),
            Result::Err(e) => Result::Err(e),
        }
    }
}

/// Every `#[bpaf(...)]` of a field, in order.
pub open spec fn apply_field_lists(
    fa: FieldAttrsSpec,
    name: Seq<char>,
    lists: Seq<Seq<Inner<Seq<char>>>>,
) -> Result<FieldAttrsSpec, DeriveError>
    decreases lists.len(),
{
    if lists.len() == 0 {
        Result::Ok(fa)
    } else {
        match apply_field_items(fa, name, lists[0]) {
            Result::Ok(fa2) => apply_field_lists(fa2, name, lists.drop_first()),
            Result::Err(e) => Result::Err(e),
        }
    }
}

/// A doc line without one leading space (rustdoc writes `/// text` as `" text"`).
pub open spec fn strip_one_space(d: Seq<char>) -> Seq<char> {
    if d.len() > 0 && d[0] == ' ' {
        d.subrange(1, d.len() as int)
    } else {
        d
    }
}

/// The parts joined with `sep` between consecutive parts.
pub open spec fn join(parts: Seq<Seq<char>>, sep: Seq<char>) -> Seq<char>
    decreases parts.len(),
{
    if parts.len() == 0 {
        Seq::empty()
    } else if parts.len() == 1 {
        parts[0]
    } else {
        join(parts.drop_last(), sep) + sep + parts.last()
    }
}

/// Doc comments become a field's help only where its attributes give neither
/// `help(...)` nor `ignore_rustdoc`; otherwise the attributes alone decide.
pub proof fn doc_help_only_fills_a_gap(
    name: Seq<char>,
    lists: Seq<Seq<Inner<Seq<char>>>>,
    docs: Seq<Seq<char>>,
)
    ensures
        match apply_field_lists(empty_field_attrs(), name, lists) {
            Result::Ok(fa) => !positional_with_name(fa) && (fa.ignore_rustdoc || fa.help is Some)
                ==> field_attrs_of(name, lists, docs) == Result::<FieldAttrsSpec, DeriveError>::Ok(fa),
            Result::Err(e) => field_attrs_of(name, lists, docs) == Result::<FieldAttrsSpec, DeriveError>::Err(
                e,
            ),
        },
{
}

/// A positional consumer together with a `short`, `long` or `env` name.
pub open spec fn positional_with_name(fa: FieldAttrsSpec) -> bool {
    fa.consumer matches Option::Some(ConsumerType::Positional { .. }) && (fa.short is Some
        || fa.long is Some || fa.env is Some)
}

/// What `FieldAttrs::parse_from_attrs` returns: the `#[bpaf(...)]` items applied in
/// order, refused where the field is positional and also named, then the doc lines (one leading space removed from each, joined by new
/// lines) as help text when no `help` was given and `ignore_rustdoc` was not.
pub open spec fn field_attrs_of(
    name: Seq<char>,
    lists: Seq<Seq<Inner<Seq<char>>>>,
    docs: Seq<Seq<char>>,
) -> Result<FieldAttrsSpec, DeriveError> {
    match apply_field_lists(empty_field_attrs(), name, lists) {
        Result::Ok(fa) => if positional_with_name(fa) {
            Result::Err(DeriveError::PositionalWithName)
        } else if !fa.ignore_rustdoc && fa.help is None && docs.len() > 0 {
            Result::Ok(
                FieldAttrsSpec {
                    help: Option::Some(join(docs.map_values(|d: Seq<char>| strip_one_space(d)), "\n"@)),
                    ..fa
                },
            )
        } else {
            Result::Ok(fa)
        },
        Result::Err(e) => Result::Err(e),
    }
}

// ----------------------------------------------------------------------------
// executable counterparts

/// The content of a string literal's text.
pub fn lit_content_exec(l: &String) -> (r: String)
    ensures
        r@ == lit_content(l@),
{
    let n = l.as_str().unicode_len();
    if n >= 2 {
        sub_text(l.as_str(), 1, n - 1)
    } else {
        String::new()
    }
}

/// A literal's text without its leading and trailing `"`.
pub fn trim_quotes_exec(l: &String) -> (r: String)
    ensures
        r@ == trim_quotes(l@),
{
    let s = l.as_str();
    let n = s.unicode_len();
    let mut a: usize = 0;
    loop
        invariant
            n == l@.len(),
            s@ == l@,
            a <= n,
            leading_quotes(l@, a as int) == leading_quotes(l@, 0),
        ensures
            a <= n,
            leading_quotes(l@, 0) == a,
        decreases n - a,
    {
        if a >= n || s.get_char(a) != '"' {
            break;
        }
        a = a + 1;
    }
    let mut b: usize = n;
    loop
        invariant
            n == l@.len(),
            s@ == l@,
            b <= n,
            trailing_quotes(l@, b as int) == trailing_quotes(l@, n as int),
        ensures
            b <= n,
            trailing_quotes(l@, n as int) == b,
        decreases b,
    {
        if b == 0 || s.get_char(b - 1) != '"' {
            break;
        }
        b = b - 1;
    }
    if a >= b {
        String::new()
    } else {
        sub_text(s, a, b)
    }
}

fn copy_opt(o: &Option<String>) -> (r: Option<String>)
    ensures
        ov(r) == ov(*o),
{
    match o {
        Option::Some(s) => Option::Some(copy_text(s.as_str())),
        Option::None => Option::None,
    }
}

fn payload_text_exec(p: &Payload<String>) -> (r: String)
    ensures
        r@ == payload_text(p@),
{
    match p {
        Payload::Args(g) => copy_text(g.text.as_str()),
        _ => String::new(),
    }
}

fn payload_lit_exec(p: &Payload<String>) -> (r: Option<String>)
    ensures
        ov(r) == payload_lit(p@),
{
    match p {
        Payload::OptLit(o) => copy_opt(o),
        Payload::Lit(l) => Option::Some(copy_text(l.as_str())),
        _ => Option::None,
    }
}

fn content_or_empty(o: Option<String>) -> (r: String)
    ensures
        r@ == match ov(o) {
            Option::Some(l) => lit_content(l),
            Option::None => Seq::empty(),
        },
{
    match o {
        Option::Some(l) => lit_content_exec(&l),
        Option::None => String::new(),
    }
}

fn push_post(fa: &mut FieldAttrs, p: Post)
    ensures
        final(fa)@ == with_post(old(fa)@, p@),
{
    let ghost pv = p@;
    fa.postpr.push(p);
    assert(posts_view(fa.postpr@) =~= posts_view(old(fa).postpr@).push(pv));
}

fn set_consumer(fa: &mut FieldAttrs, c: ConsumerType)
    ensures
        final(fa)@ == with_consumer(old(fa)@, c@),
{
    fa.consumer = Option::Some(c);
}

/// Applies one item of a field's `#[bpaf(...)]`.
fn apply_field_item_exec(fa: &mut FieldAttrs, name: &str, x: &Inner<String>) -> (r: Result<(), DeriveError>)
    ensures
        match r {
            Result::Ok(()) => apply_field_item(old(fa)@, name@, x@) == Result::<FieldAttrsSpec, DeriveError>::Ok(final(fa)@),
            Result::Err(e) => apply_field_item(old(fa)@, name@, x@) == Result::<FieldAttrsSpec, DeriveError>::Err(e),
        },
{
    let p = &x.payload;
    let k = match x.kw {
        Option::None => return Result::Err(DeriveError::UnknownAttribute),
        Option::Some(k) => k,
    };
    match k {
        Kw::Short => {
            let c = match p {
                Payload::OptChar(Option::Some(c)) => *c,
                _ => if name.unicode_len() > 0 {
                    name.get_char(0)
                } else {
                    '_'
                },
            };
            fa.short = Option::Some(c);
        },
        Kw::Long => {
            let l = match payload_lit_exec(p) {
                Option::Some(l) => lit_content_exec(&l),
                Option::None => to_kebab_case(name),
            };
            fa.long = Option::Some(l);
        },
        Kw::Env => {
            fa.env = Option::Some(payload_text_exec(p));
        },
        Kw::Switch => set_consumer(fa, ConsumerType::Switch),
        Kw::Flag => match p {
            Payload::Args(g) => match &g.two {
                Option::Some(TwoArgs { first: a, second: b }) => set_consumer(
                    fa,
                    ConsumerType::Flag { present: copy_text(a.as_str()), absent: copy_text(b.as_str()) },
                ),
                Option::None => return Result::Err(DeriveError::FlagArgs),
            },
            _ => return Result::Err(DeriveError::FlagArgs),
        },
        Kw::Argument => {
            let m = match payload_lit_exec(p) {
                Option::Some(l) => Option::Some(lit_content_exec(&l)),
                Option::None => Option::None,
            };
            set_consumer(fa, ConsumerType::Argument { metavar: m });
        },
        Kw::Positional => {
            let m = match payload_lit_exec(p) {
                Option::Some(l) => Option::Some(lit_content_exec(&l)),
                Option::None => Option::None,
            };
            set_consumer(fa, ConsumerType::Positional { metavar: m });
        },
        Kw::ReqFlag => set_consumer(fa, ConsumerType::ReqFlag { present: payload_text_exec(p) }),
        Kw::Any => match p {
            Payload::Any(ty, g) => match &g.any {
                Option::Some(args) => set_consumer(
                    fa,
                    ConsumerType::Any {
                        metavar: args.metavar_str(),
                        ty: copy_opt(ty),
                        check: args.check_fn_tokens(),
                    },
                ),
                Option::None => return Result::Err(DeriveError::AnyArgs),
            },
            _ => return Result::Err(DeriveError::AnyArgs),
        },
        Kw::External => {
            let ident = match p {
                Payload::OptArgs(Option::Some(g)) => Option::Some(copy_text(g.text.as_str())),
                _ => Option::None,
            };
            set_consumer(fa, ConsumerType::External { ident });
        },
        Kw::Pure => set_consumer(fa, ConsumerType::Pure { expr: payload_text_exec(p) }),
        Kw::PureWith => set_consumer(fa, ConsumerType::PureWith { expr: payload_text_exec(p) }),
        Kw::MapFn => push_post(fa, Post::Parse(PostParse::MapFn { f: payload_text_exec(p) })),
        Kw::Parse => push_post(fa, Post::Parse(PostParse::Parse { f: payload_text_exec(p) })),
        Kw::Optional => push_post(fa, Post::Parse(PostParse::Optional)),
        Kw::Many => push_post(fa, Post::Parse(PostParse::Many)),
        Kw::SomeMsg => push_post(fa, Post::Parse(PostParse::SomeMsg { msg: payload_text_exec(p) })),
        Kw::Catch => push_post(fa, Post::Parse(PostParse::Catch)),
        Kw::Collect => push_post(fa, Post::Parse(PostParse::Collect)),
        Kw::Count => push_post(fa, Post::Parse(PostParse::Count)),
        Kw::Anywhere => push_post(fa, Post::Parse(PostParse::Anywhere)),
        Kw::Adjacent => push_post(fa, Post::Parse(PostParse::Adjacent)),
        Kw::Strict => push_post(fa, Post::Parse(PostParse::Strict)),
        Kw::NonStrict => push_post(fa, Post::Parse(PostParse::NonStrict)),
        Kw::Guard => match p {
            Payload::Args(g) => match &g.two {
                Option::Some(TwoArgs { first: a, second: b }) => push_post(
                    fa,
                    Post::Decor(PostDecor::Guard { check: copy_text(a.as_str()), msg: copy_text(b.as_str()) }),
                ),
                Option::None => return Result::Err(DeriveError::GuardArgs),
            },
            _ => return Result::Err(DeriveError::GuardArgs),
        },
        Kw::Hide => push_post(fa, Post::Decor(PostDecor::Hide)),
        Kw::HideUsage => push_post(fa, Post::Decor(PostDecor::HideUsage)),
        Kw::CustomUsage => push_post(fa, Post::Decor(PostDecor::CustomUsage { usage: payload_text_exec(p) })),
        Kw::FallbackWith => push_post(fa, Post::Decor(PostDecor::FallbackWith { f: payload_text_exec(p) })),
        Kw::GroupHelp => push_post(fa, Post::Decor(PostDecor::GroupHelp { doc: payload_text_exec(p) })),
        Kw::DebugFallback => push_post(fa, Post::Decor(PostDecor::DebugFallback)),
        Kw::DisplayFallback => push_post(fa, Post::Decor(PostDecor::DisplayFallback)),
        Kw::FormatFallback => push_post(
            fa,
            Post::Decor(PostDecor::FormatFallback { formatter: payload_text_exec(p) }),
        ),
        Kw::Last => push_post(fa, Post::Decor(PostDecor::Last)),
        Kw::Complete => push_post(fa, Post::Decor(PostDecor::Complete { f: payload_text_exec(p) })),
        Kw::Group => push_post(
            fa,
            Post::Decor(PostDecor::CompleteGroup { group: content_or_empty(payload_lit_exec(p)) }),
        ),
        Kw::CompleteShell => push_post(fa, Post::Decor(PostDecor::CompleteShell { f: payload_text_exec(p) })),
        Kw::Help => {
            fa.help = Option::Some(content_or_empty(payload_lit_exec(p)));
        },
        Kw::Fallback => {
            fa.fallback = Option::Some(payload_text_exec(p));
        },
        Kw::IgnoreRustdoc => {
            fa.ignore_rustdoc = true;
        },
        _ => {},
    }
    Result::Ok(())
}

/// Applies the items of one `#[bpaf(...)]` in order.
fn apply_field_items_exec(fa: &mut FieldAttrs, name: &str, items: &Vec<Inner<String>>) -> (r: Result<(), DeriveError>)
    ensures
        match r {
            Result::Ok(()) => apply_field_items(old(fa)@, name@, inners_view(items@)) == Result::<FieldAttrsSpec, DeriveError>::Ok(final(fa)@),
            Result::Err(e) => apply_field_items(old(fa)@, name@, inners_view(items@)) == Result::<FieldAttrsSpec, DeriveError>::Err(e),
        },
{
    let ghost whole = inners_view(items@);
    let mut i: usize = 0;
    assert(whole.subrange(0, whole.len() as int) =~= whole);
    while i < items.len()
        invariant
            i <= items@.len(),
            whole == inners_view(items@),
            apply_field_items(old(fa)@, name@, whole) == apply_field_items(fa@, name@, whole.subrange(i as int, whole.len() as int)),
        decreases items@.len() - i,
    {
        let ghost before = fa@;
        let ghost rest = whole.subrange(i as int, whole.len() as int);
        assert(rest[0] == items@[i as int]@);
        assert(rest.drop_first() =~= whole.subrange(i + 1, whole.len() as int));
        match apply_field_item_exec(fa, name, &items[i]) {
            Result::Ok(()) => {},
            Result::Err(e) => return Result::Err(e),
        }
        i = i + 1;
    }
    assert(whole.subrange(i as int, whole.len() as int) =~= Seq::<Inner<Seq<char>>>::empty());
    Result::Ok(())
}

/// The parts joined by `sep`.
pub fn join_exec(parts: &Vec<String>, sep: &str) -> (r: String)
    ensures
        r@ == join(texts_view(parts@), sep@),
{
    let mut out = String::new();
    let mut i: usize = 0;
    assert(texts_view(parts@).subrange(0, 0) =~= Seq::<Seq<char>>::empty());
    while i < parts.len()
        invariant
            i <= parts@.len(),
            out@ == join(texts_view(parts@).subrange(0, i as int), sep@),
        decreases parts@.len() - i,
    {
        let ghost pre = texts_view(parts@).subrange(0, i as int);
        let ghost next = texts_view(parts@).subrange(0, i + 1);
        assert(next.drop_last() =~= pre);
        if i > 0 {
            push_text(&mut out, sep);
        }
        push_text(&mut out, parts[i].as_str());
        proof {
            if i == 0 {
                assert(next =~= seq![parts@[0]@]);
            }
        }
        i = i + 1;
    }
    assert(texts_view(parts@).subrange(0, parts@.len() as int) =~= texts_view(parts@));
    out
}

/// Doc lines with one leading space removed from each.
pub fn strip_doc_lines(docs: &Vec<String>) -> (r: Vec<String>)
    ensures
        texts_view(r@) == texts_view(docs@).map_values(|d: Seq<char>| strip_one_space(d)),
{
    let mut out: Vec<String> = Vec::new();
    let mut i: usize = 0;
    while i < docs.len()
        invariant
            i <= docs@.len(),
            texts_view(out@) =~= texts_view(docs@).subrange(0, i as int).map_values(|d: Seq<char>| strip_one_space(d)),
        decreases docs@.len() - i,
    {
        let d = docs[i].as_str();
        let n = d.unicode_len();
        let t = if n > 0 && d.get_char(0) == ' ' {
            sub_text(d, 1, n)
        } else {
            copy_text(d)
        };
        assert(t@ == strip_one_space(docs@[i as int]@));
        let ghost prev = out@;
        out.push(t);
        assert(texts_view(out@) =~= texts_view(prev).push(strip_one_space(docs@[i as int]@)));
        assert(texts_view(docs@).subrange(0, i + 1) =~= texts_view(docs@).subrange(0, i as int).push(docs@[i as int]@));
        i = i + 1;
    }
    assert(texts_view(docs@).subrange(0, docs@.len() as int) =~= texts_view(docs@));
    out
}

impl FieldAttrs {
    /// Parse attributes from a field's attribute list
    /// The field_name is used to derive short/long names when not explicitly specified
    pub fn parse_from_attrs(
        field_name: &str,
        bpaf_attrs: &Vec<Vec<Inner<String>>>,
        doc_attrs: &Vec<String>,
    ) -> (r: Result<FieldAttrs, DeriveError>)
        ensures
            match r {
                Result::Ok(fa) => field_attrs_of(field_name@, lists_view(bpaf_attrs@), texts_view(doc_attrs@))
                    == Result::<FieldAttrsSpec, DeriveError>::Ok(fa@),
                Result::Err(e) => field_attrs_of(field_name@, lists_view(bpaf_attrs@), texts_view(doc_attrs@))
                    == Result::<FieldAttrsSpec, DeriveError>::Err(e),
            },
    {
        let mut fa = FieldAttrs {
            short: Option::None,
            long: Option::None,
            env: Option::None,
            help: Option::None,
            fallback: Option::None,
            consumer: Option::None,
            postpr: Vec::new(),
            ignore_rustdoc: false,
        };
        assert(fa@.postpr =~= Seq::<Post<Seq<char>>>::empty());
        assert(fa@ == empty_field_attrs());
        let ghost lists = lists_view(bpaf_attrs@);
        let mut i: usize = 0;
        assert(lists.subrange(0, lists.len() as int) =~= lists);
        while i < bpaf_attrs.len()
            invariant
                i <= bpaf_attrs@.len(),
                lists == lists_view(bpaf_attrs@),
                apply_field_lists(empty_field_attrs(), field_name@, lists) == apply_field_lists(fa@, field_name@, lists.subrange(i as int, lists.len() as int)),
            decreases bpaf_attrs@.len() - i,
        {
            let ghost rest = lists.subrange(i as int, lists.len() as int);
            assert(rest[0] == inners_view(bpaf_attrs@[i as int]@));
            assert(rest.drop_first() =~= lists.subrange(i + 1, lists.len() as int));
            match apply_field_items_exec(&mut fa, field_name, &bpaf_attrs[i]) {
                Result::Ok(()) => {},
                Result::Err(e) => return Result::Err(e),
            }
            i = i + 1;
        }
        assert(lists.subrange(i as int, lists.len() as int) =~= Seq::<Seq<Inner<Seq<char>>>>::empty());
        let positional = match &fa.consumer {
            Option::Some(ConsumerType::Positional { .. }) => true,
            _ => false,
        };
        if positional && (fa.short.is_some() || fa.long.is_some() || fa.env.is_some()) {
            return Result::Err(DeriveError::PositionalWithName);
        }
        if !fa.ignore_rustdoc && fa.help.is_none() && doc_attrs.len() > 0 {
            let lines = strip_doc_lines(doc_attrs);
            let help = join_exec(&lines, "\n");
            fa.help = Option::Some(help);
        }
        Result::Ok(fa)
    }
}

} // verus!
