//! Top-level structure parsing: the annotated struct or enum, its fields and variants,
//! and what its own `#[bpaf(...)]` and doc comments set.
use crate::attrs::{
    join, join_exec, lit_content, lit_content_exec, ov, posts_view, strip_doc_lines,
    strip_one_space, trim_quotes, trim_quotes_exec, FieldAttrs, FieldAttrsSpec, Post,
    PostDecor,
};
use crate::error::DeriveError;
use crate::grammar::{
    attrs_from, attrs_from_exec, ident_text, inners_view, lists_view, texts_view, type_shape,
    verbatim_until, verbatim_until_exec, vis_end, vis_end_exec, CollectedSpec, Collected,
    AnyArgs, GroupArgs, Inner, Kw, Payload, TwoArgs, TypeShape,
};
use crate::attrs::{field_attrs_of, ConsumerType};
use crate::tokens::{inner, is_brace, is_ident, is_kw, is_paren, is_punct, tok_is_kw, tok_is_punct, Delim, Tok};
use crate::literal::{quote_str, string_literal};
use crate::mode::{with_command, with_options, with_parser, 
    default_mode, default_options, CommandCfg, CommandCfgSpec, Mode, ModeSpec, OptionsCfg,
    ParserCfg,
};
use crate::tokens::{copy_text, push_char, push_text};
use vstd::prelude::*;

verus! {

/// What the items of one `#[bpaf(...)]` on the struct or enum set, while they are read.
pub struct StructAttrStateSpec {
    pub command: Option<CommandCfgSpec>,
    pub options: Option<OptionsCfg<Seq<char>>>,
    pub parser: Option<ParserCfg<Seq<char>>>,
    pub adjacent: bool,
    pub fallback: Option<Seq<char>>,
    pub bpaf_path: Option<Seq<char>>,
    pub custom_name: Option<Seq<char>>,
    pub private: bool,
    pub boxed: bool,
    pub ignore_rustdoc: bool,
    pub attrs: Seq<Post<Seq<char>>>,
    /// no item was read yet
    pub first: bool,
}

pub open spec fn struct_state_init() -> StructAttrStateSpec {
    StructAttrStateSpec {
        command: Option::None,
        options: Option::None,
        parser: Option::Some(ParserCfg { group_help: Option::None }),
        adjacent: false,
        fallback: Option::None,
        bpaf_path: Option::None,
        custom_name: Option::None,
        private: false,
        boxed: false,
        ignore_rustdoc: false,
        attrs: Seq::empty(),
        first: true,
    }
}

pub open spec fn payload_text(p: Payload<Seq<char>>) -> Seq<char> {
    crate::attrs::payload_text(p)
}

pub open spec fn payload_raw_lit(p: Payload<Seq<char>>) -> Seq<char> {
    match crate::attrs::payload_lit(p) {
        Option::Some(l) => l,
        Option::None => Seq::empty(),
    }
}

pub open spec fn set_options(
    st: StructAttrStateSpec,
    f: spec_fn(OptionsCfg<Seq<char>>) -> OptionsCfg<Seq<char>>,
) -> StructAttrStateSpec {
    match st.options {
        Option::Some(o) => StructAttrStateSpec { options: Option::Some(f(o)), ..st },
        Option::None => st,
    }
}

pub open spec fn set_command(
    st: StructAttrStateSpec,
    f: spec_fn(CommandCfgSpec) -> CommandCfgSpec,
) -> StructAttrStateSpec {
    match st.command {
        Option::Some(c) => StructAttrStateSpec { command: Option::Some(f(c)), ..st },
        Option::None => st,
    }
}

pub open spec fn push_top_post(st: StructAttrStateSpec, p: Post<Seq<char>>) -> StructAttrStateSpec {
    StructAttrStateSpec { attrs: st.attrs.push(p), ..st }
}

/// What one item of the struct's or enum's `#[bpaf(...)]` does; `options`, `command`
/// and `parser` choose the mode only as the first item.
pub open spec fn struct_item_effect(st: StructAttrStateSpec, x: Inner<Seq<char>>) -> Result<
    StructAttrStateSpec,
    DeriveError,
> {
    let p = x.payload;
    match x.kw {
        Option::Some(Kw::Options) if st.first => Result::Ok(
            StructAttrStateSpec {
                options: Option::Some(default_options()),
                parser: Option::None,
                ..st
            },
        ),
        Option::Some(Kw::Command) if st.first => Result::Ok(
            StructAttrStateSpec {
                command: Option::Some(
                    CommandCfgSpec {
                        name: match crate::attrs::payload_lit(p) {
                            Option::Some(l) => Option::Some(lit_content(l)),
                            Option::None => Option::None,
                        },
                        long: Seq::empty(),
                        short: Seq::empty(),
                        help: Option::None,
                    },
                ),
                options: Option::Some(default_options()),
                parser: Option::None,
                ..st
            },
        ),
        Option::Some(Kw::Adjacent) => Result::Ok(StructAttrStateSpec { adjacent: true, ..st }),
        Option::Some(Kw::Fallback) => Result::Ok(
            StructAttrStateSpec { fallback: Option::Some(payload_text(p)), ..st },
        ),
        Option::Some(Kw::Path) => Result::Ok(
            StructAttrStateSpec { bpaf_path: Option::Some(payload_text(p)), ..st },
        ),
        Option::Some(Kw::Generate) => Result::Ok(
            StructAttrStateSpec {
                custom_name: Option::Some(
                    match p {
                        Payload::Ident(n) => n,
                        _ => Seq::empty(),
                    },
                ),
                ..st
            },
        ),
        Option::Some(Kw::Private) => Result::Ok(StructAttrStateSpec { private: true, ..st }),
        Option::Some(Kw::Boxed) => Result::Ok(StructAttrStateSpec { boxed: true, ..st }),
        Option::Some(Kw::IgnoreRustdoc) => Result::Ok(
            StructAttrStateSpec { ignore_rustdoc: true, ..st },
        ),
        Option::Some(Kw::Descr) => Result::Ok(
            set_options(st, |o: OptionsCfg<Seq<char>>| OptionsCfg { descr: Option::Some(payload_text(p)), ..o }),
        ),
        Option::Some(Kw::Footer) => Result::Ok(
            set_options(st, |o: OptionsCfg<Seq<char>>| OptionsCfg { footer: Option::Some(payload_text(p)), ..o }),
        ),
        Option::Some(Kw::Header) => Result::Ok(
            set_options(st, |o: OptionsCfg<Seq<char>>| OptionsCfg { header: Option::Some(payload_text(p)), ..o }),
        ),
        Option::Some(Kw::Usage) => Result::Ok(
            set_options(st, |o: OptionsCfg<Seq<char>>| OptionsCfg { usage: Option::Some(payload_text(p)), ..o }),
        ),
        Option::Some(Kw::Version) => Result::Ok(
            set_options(st, |o: OptionsCfg<Seq<char>>| OptionsCfg { version: Option::Some(payload_text(p)), ..o }),
        ),
        Option::Some(Kw::MaxWidth) => Result::Ok(
            set_options(st, |o: OptionsCfg<Seq<char>>| OptionsCfg { max_width: Option::Some(payload_text(p)), ..o }),
        ),
        Option::Some(Kw::CargoHelper) => Result::Ok(
            set_options(st, |o: OptionsCfg<Seq<char>>| OptionsCfg { cargo_helper: Option::Some(lit_content(payload_raw_lit(p))), ..o }),
        ),
        Option::Some(Kw::FallbackToUsage) => Result::Ok(
            set_options(st, |o: OptionsCfg<Seq<char>>| OptionsCfg { fallback_usage: true, ..o }),
        ),
        Option::Some(Kw::Short) => Result::Ok(
            match p {
                Payload::OptChar(Option::Some(c)) => set_command(st, |cm: CommandCfgSpec| CommandCfgSpec { short: cm.short.push(c), ..cm }),
                _ => st,
            },
        ),
        Option::Some(Kw::Long) => Result::Ok(
            match crate::attrs::payload_lit(p) {
                Option::Some(l) => set_command(st, |cm: CommandCfgSpec| CommandCfgSpec { long: cm.long.push(trim_quotes(l)), ..cm }),
                Option::None => st,
            },
        ),
        Option::Some(Kw::Help) => Result::Ok(
            set_command(st, |cm: CommandCfgSpec| CommandCfgSpec { help: Option::Some(string_literal(trim_quotes(payload_raw_lit(p)))), ..cm }),
        ),
        Option::Some(Kw::Guard) => match p {
            Payload::Args(GroupArgs { two: Option::Some(TwoArgs { first: a, second: b }), .. }) => Result::Ok(
                push_top_post(st, Post::Decor(PostDecor::Guard { check: a, msg: b })),
            ),
            _ => Result::Err(DeriveError::GuardArgs),
        },
        Option::Some(Kw::Hide) => Result::Ok(push_top_post(st, Post::Decor(PostDecor::Hide))),
        Option::Some(Kw::HideUsage) => Result::Ok(push_top_post(st, Post::Decor(PostDecor::HideUsage))),
        Option::Some(Kw::CustomUsage) => Result::Ok(
            push_top_post(st, Post::Decor(PostDecor::CustomUsage { usage: payload_text(p) })),
        ),
        Option::Some(Kw::FallbackWith) => Result::Ok(
            push_top_post(st, Post::Decor(PostDecor::FallbackWith { f: payload_text(p) })),
        ),
        Option::Some(Kw::GroupHelp) => Result::Ok(
            match st.parser {
                Option::Some(pc) => StructAttrStateSpec {
                    parser: Option::Some(ParserCfg { group_help: Option::Some(payload_text(p)) }),
                    ..st
                },
                Option::None => st,
            },
        ),
        Option::Some(Kw::Complete) => Result::Ok(
            push_top_post(st, Post::Decor(PostDecor::Complete { f: payload_text(p) })),
        ),
        Option::Some(Kw::Group) => Result::Ok(
            push_top_post(st, Post::Decor(PostDecor::CompleteGroup { group: payload_raw_lit(p) })),
        ),
        _ => Result::Ok(st),
    }
}

/// One item, then `first` is off.
pub open spec fn struct_item(st: StructAttrStateSpec, x: Inner<Seq<char>>) -> Result<
    StructAttrStateSpec,
    DeriveError,
> {
    match struct_item_effect(st, x) {
        Result::Ok(s2) => Result::Ok(StructAttrStateSpec { first: false, ..s2 }),
        Result::Err(e) => Result::Err(e),
    }
}

pub open spec fn struct_items(st: StructAttrStateSpec, items: Seq<Inner<Seq<char>>>) -> Result<
    StructAttrStateSpec,
    DeriveError,
>
    decreases items.len(),
{
    if items.len() == 0 {
        Result::Ok(st)
    } else {
        match struct_item(st, items[0]) {
            Result::Ok(s2) => struct_items(s2, items.drop_first()),
            Result::Err(e) => Result::Err(e),
        }
    }
}

/// The mode the items chose: command, options, or parser mode.
pub open spec fn mode_of(st: StructAttrStateSpec) -> ModeSpec {
    match (st.options, st.command) {
        (Option::Some(o), Option::Some(c)) => ModeSpec::Command { command: c, options: o },
        (Option::Some(o), Option::None) => ModeSpec::Options { options: o },
        _ => ModeSpec::Parser {
            parser: match st.parser {
                Option::Some(p) => p,
                Option::None => ParserCfg { group_help: Option::None },
            },
        },
    }
}

/// What the struct's or enum's `#[bpaf(...)]` annotations set, all of them read.
pub struct TopInfoSpec {
    pub adjacent: bool,
    pub mode: ModeSpec,
    pub fallback: Option<Seq<char>>,
    pub bpaf_path: Option<Seq<char>>,
    pub custom_name: Option<Seq<char>>,
    pub private: bool,
    pub boxed: bool,
    pub ignore_rustdoc: bool,
    pub attrs: Seq<Post<Seq<char>>>,
}

pub open spec fn top_info_init() -> TopInfoSpec {
    TopInfoSpec {
        adjacent: false,
        mode: default_mode(),
        fallback: Option::None,
        bpaf_path: Option::None,
        custom_name: Option::None,
        private: false,
        boxed: false,
        ignore_rustdoc: false,
        attrs: Seq::empty(),
    }
}

pub open spec fn or_else(a: Option<Seq<char>>, b: Option<Seq<char>>) -> Option<Seq<char>> {
    match a {
        Option::Some(x) => Option::Some(x),
        Option::None => b,
    }
}

/// One more annotation: flags accumulate, the mode is replaced, a given value
/// replaces an earlier one, decorators are appended.
pub open spec fn merge_info(acc: TopInfoSpec, st: StructAttrStateSpec) -> TopInfoSpec {
    TopInfoSpec {
        adjacent: acc.adjacent || st.adjacent,
        mode: mode_of(st),
        fallback: or_else(st.fallback, acc.fallback),
        bpaf_path: or_else(st.bpaf_path, acc.bpaf_path),
        custom_name: or_else(st.custom_name, acc.custom_name),
        private: acc.private || st.private,
        boxed: acc.boxed || st.boxed,
        ignore_rustdoc: acc.ignore_rustdoc || st.ignore_rustdoc,
        attrs: acc.attrs + st.attrs,
    }
}

/// Every annotation of the struct or enum, in order; the first refusal stops.
pub open spec fn top_info_of(acc: TopInfoSpec, lists: Seq<Seq<Inner<Seq<char>>>>) -> Result<
    TopInfoSpec,
    DeriveError,
>
    decreases lists.len(),
{
    if lists.len() == 0 {
        Result::Ok(acc)
    } else {
        match struct_items(struct_state_init(), lists[0]) {
            Result::Ok(st) => top_info_of(merge_info(acc, st), lists.drop_first()),
            Result::Err(e) => Result::Err(e),
        }
    }
}

// ----------------------------------------------------------------------------
// executable counterparts

/// What the items of one `#[bpaf(...)]` on the struct or enum set, while they are read.
pub struct StructAttrState {
    pub command: Option<CommandCfg>,
    pub options: Option<OptionsCfg>,
    pub parser: Option<ParserCfg>,
    pub adjacent: bool,
    pub fallback: Option<String>,
    pub bpaf_path: Option<String>,
    pub custom_name: Option<String>,
    pub private: bool,
    pub boxed: bool,
    pub ignore_rustdoc: bool,
    pub attrs: Vec<Post>,
    pub first: bool,
}

impl View for StructAttrState {
    type V = StructAttrStateSpec;

    open spec fn view(&self) -> StructAttrStateSpec {
        StructAttrStateSpec {
            command: match self.command {
                Option::Some(c) => Option::Some(c@),
                Option::None => Option::None,
            },
            options: match self.options {
                Option::Some(o) => Option::Some(o@),
                Option::None => Option::None,
            },
            parser: match self.parser {
                Option::Some(p) => Option::Some(p@),
                Option::None => Option::None,
            },
            adjacent: self.adjacent,
            fallback: ov(self.fallback),
            bpaf_path: ov(self.bpaf_path),
            custom_name: ov(self.custom_name),
            private: self.private,
            boxed: self.boxed,
            ignore_rustdoc: self.ignore_rustdoc,
            attrs: posts_view(self.attrs@),
            first: self.first,
        }
    }
}

fn payload_text_exec(p: &Payload<String>) -> (r: String)
    ensures
        r@ == payload_text(p@),
{
    match p {
        Payload::Args(g) => copy_text(g.text.as_str()),
        _ => String::new(),
    }
}

fn payload_raw_lit_exec(p: &Payload<String>) -> (r: String)
    ensures
        r@ == payload_raw_lit(p@),
{
    match p {
        Payload::OptLit(Option::Some(l)) => copy_text(l.as_str()),
        Payload::Lit(l) => copy_text(l.as_str()),
        _ => String::new(),
    }
}

fn push_top_post_exec(st: &mut StructAttrState, p: Post)
    ensures
        final(st)@ == push_top_post(old(st)@, p@),
{
    let ghost pv = p@;
    st.attrs.push(p);
    assert(posts_view(st.attrs@) =~= posts_view(old(st).attrs@).push(pv));
}

fn new_options() -> (r: OptionsCfg)
    ensures
        r@ == default_options(),
{
    OptionsCfg::new()
}

/// Applies one item of the struct's or enum's annotation.
fn struct_item_exec(st: &mut StructAttrState, x: &Inner<String>) -> (r: Result<(), DeriveError>)
    ensures
        match r {
            Result::Ok(()) => struct_item(old(st)@, x@) == Result::<StructAttrStateSpec, DeriveError>::Ok(final(st)@),
            Result::Err(e) => struct_item(old(st)@, x@) == Result::<StructAttrStateSpec, DeriveError>::Err(e),
        },
{
    let p = &x.payload;
    match x.kw {
        Option::Some(Kw::Options) if st.first => {
            st.options = Option::Some(new_options());
            st.parser = Option::None;
        },
        Option::Some(Kw::Command) if st.first => {
            let name = match p {
                Payload::OptLit(Option::Some(l)) => Option::Some(lit_content_exec(l)),
                Payload::Lit(l) => Option::Some(lit_content_exec(l)),
                _ => Option::None,
            };
            let cmd = CommandCfg { name, long: Vec::new(), short: Vec::new(), help: Option::None };
            assert(cmd@.long =~= Seq::<Seq<char>>::empty());
            assert(cmd@.short =~= Seq::<char>::empty());
            st.command = Option::Some(cmd);
            st.options = Option::Some(new_options());
            st.parser = Option::None;
        },
        Option::Some(Kw::Adjacent) => {
            st.adjacent = true;
        },
        Option::Some(Kw::Fallback) => {
            st.fallback = Option::Some(payload_text_exec(p));
        },
        Option::Some(Kw::Path) => {
            st.bpaf_path = Option::Some(payload_text_exec(p));
        },
        Option::Some(Kw::Generate) => {
            let n = match p {
                Payload::Ident(n) => copy_text(n.as_str()),
                _ => String::new(),
            };
            st.custom_name = Option::Some(n);
        },
        Option::Some(Kw::Private) => {
            st.private = true;
        },
        Option::Some(Kw::Boxed) => {
            st.boxed = true;
        },
        Option::Some(Kw::IgnoreRustdoc) => {
            st.ignore_rustdoc = true;
        },
        Option::Some(Kw::Descr) => {
            let t = payload_text_exec(p);
            let ghost tv = t@;
            let set = move |opts: &mut OptionsCfg|
                ensures
                    final(opts)@ == old(opts)@.with_descr(tv),
                {
                    opts.descr = Option::Some(t);
                };
            with_options(&mut st.options, set);
        },
        Option::Some(Kw::Footer) => {
            let t = payload_text_exec(p);
            let ghost tv = t@;
            let set = move |opts: &mut OptionsCfg|
                ensures
                    final(opts)@ == old(opts)@.with_footer(tv),
                {
                    opts.footer = Option::Some(t);
                };
            with_options(&mut st.options, set);
        },
        Option::Some(Kw::Header) => {
            let t = payload_text_exec(p);
            let ghost tv = t@;
            let set = move |opts: &mut OptionsCfg|
                ensures
                    final(opts)@ == old(opts)@.with_header(tv),
                {
                    opts.header = Option::Some(t);
                };
            with_options(&mut st.options, set);
        },
        Option::Some(Kw::Usage) => {
            let t = payload_text_exec(p);
            let ghost tv = t@;
            let set = move |opts: &mut OptionsCfg|
                ensures
                    final(opts)@ == old(opts)@.with_usage(tv),
                {
                    opts.usage = Option::Some(t);
                };
            with_options(&mut st.options, set);
        },
        Option::Some(Kw::Version) => {
            let t = payload_text_exec(p);
            let ghost tv = t@;
            let set = move |opts: &mut OptionsCfg|
                ensures
                    final(opts)@ == old(opts)@.with_version(tv),
                {
                    opts.version = Option::Some(t);
                };
            with_options(&mut st.options, set);
        },
        Option::Some(Kw::MaxWidth) => {
            let t = payload_text_exec(p);
            let ghost tv = t@;
            let set = move |opts: &mut OptionsCfg|
                ensures
                    final(opts)@ == old(opts)@.with_max_width(tv),
                {
                    opts.max_width = Option::Some(t);
                };
            with_options(&mut st.options, set);
        },
        Option::Some(Kw::CargoHelper) => {
            let raw = payload_raw_lit_exec(p);
            let t = lit_content_exec(&raw);
            let ghost tv = t@;
            let set = move |opts: &mut OptionsCfg|
                ensures
                    final(opts)@ == old(opts)@.with_cargo_helper(tv),
                {
                    opts.cargo_helper = Option::Some(t);
                };
            with_options(&mut st.options, set);
        },
        Option::Some(Kw::FallbackToUsage) => {
            let set = |opts: &mut OptionsCfg|
                ensures
                    final(opts)@ == old(opts)@.with_fallback_usage(),
                {
                    opts.fallback_usage = true;
                };
            with_options(&mut st.options, set);
        },
        Option::Some(Kw::Short) => {
            if let Payload::OptChar(Option::Some(c)) = p {
                let ch = *c;
                let add = move |cmd: &mut CommandCfg|
                    ensures
                        final(cmd)@ == old(cmd)@.push_short(ch),
                    {
                        cmd.short.push(ch);
                    };
                with_command(&mut st.command, add);
            }
        },
        Option::Some(Kw::Long) => {
            let l = match p {
                Payload::OptLit(Option::Some(l)) => Option::Some(trim_quotes_exec(l)),
                Payload::Lit(l) => Option::Some(trim_quotes_exec(l)),
                _ => Option::None,
            };
            if let Option::Some(l) = l {
                let ghost lv = l@;
                let add = move |cmd: &mut CommandCfg|
                    ensures
                        final(cmd)@ == old(cmd)@.push_long(lv),
                    {
                        let ghost before = cmd.long@;
                        cmd.long.push(l);
                        assert(texts_view(cmd.long@) =~= texts_view(before).push(lv));
                    };
                with_command(&mut st.command, add);
            }
        },
        Option::Some(Kw::Help) => {
            let raw = payload_raw_lit_exec(p);
            let trimmed = trim_quotes_exec(&raw);
            let h = quote_str(trimmed.as_str());
            let ghost hv = h@;
            let set = move |cmd: &mut CommandCfg|
                ensures
                    final(cmd)@ == old(cmd)@.with_help(hv),
                {
                    cmd.help = Option::Some(h);
                };
            with_command(&mut st.command, set);
        },
        Option::Some(Kw::Guard) => match p {
            Payload::Args(g) => match &g.two {
                Option::Some(TwoArgs { first: a, second: b }) => push_top_post_exec(
                    st,
                    Post::Decor(PostDecor::Guard { check: copy_text(a.as_str()), msg: copy_text(b.as_str()) }),
                ),
                Option::None => return Result::Err(DeriveError::GuardArgs),
            },
            _ => return Result::Err(DeriveError::GuardArgs),
        },
        Option::Some(Kw::Hide) => push_top_post_exec(st, Post::Decor(PostDecor::Hide)),
        Option::Some(Kw::HideUsage) => push_top_post_exec(st, Post::Decor(PostDecor::HideUsage)),
        Option::Some(Kw::CustomUsage) => push_top_post_exec(
            st,
            Post::Decor(PostDecor::CustomUsage { usage: payload_text_exec(p) }),
        ),
        Option::Some(Kw::FallbackWith) => push_top_post_exec(
            st,
            Post::Decor(PostDecor::FallbackWith { f: payload_text_exec(p) }),
        ),
        Option::Some(Kw::GroupHelp) => {
            let t = payload_text_exec(p);
            let ghost tv = t@;
            let set = move |pc: &mut ParserCfg|
                ensures
                    final(pc)@ == (ParserCfg { group_help: Option::Some(tv) }),
                {
                    pc.group_help = Option::Some(t);
                };
            with_parser(&mut st.parser, set);
        },
        Option::Some(Kw::Complete) => push_top_post_exec(
            st,
            Post::Decor(PostDecor::Complete { f: payload_text_exec(p) }),
        ),
        Option::Some(Kw::Group) => push_top_post_exec(
            st,
            Post::Decor(PostDecor::CompleteGroup { group: payload_raw_lit_exec(p) }),
        ),
        _ => {},
    }
    st.first = false;
    Result::Ok(())
}

/// The mode the items chose.
fn mode_of_exec(options: Option<OptionsCfg>, command: Option<CommandCfg>, parser: Option<ParserCfg>) -> (r: Mode)
    ensures
        forall|st: StructAttrState| st.options == options && st.command == command && st.parser == parser ==> r@ == mode_of(#[trigger] st@),
{
    match (options, command) {
        (Option::Some(o), Option::Some(c)) => Mode::Command { command: c, options: o },
        (Option::Some(o), Option::None) => Mode::Options { options: o },
        _ => Mode::Parser {
            parser: match parser {
                Option::Some(p) => p,
                Option::None => ParserCfg { group_help: Option::None },
            },
        },
    }
}

/// What the struct's or enum's annotations set.
pub struct TopInfo {
    pub adjacent: bool,
    pub mode: Mode,
    pub fallback: Option<String>,
    pub bpaf_path: Option<String>,
    pub custom_name: Option<String>,
    pub private: bool,
    pub boxed: bool,
    pub ignore_rustdoc: bool,
    pub attrs: Vec<Post>,
}

impl View for TopInfo {
    type V = TopInfoSpec;

    open spec fn view(&self) -> TopInfoSpec {
        TopInfoSpec {
            adjacent: self.adjacent,
            mode: self.mode@,
            fallback: ov(self.fallback),
            bpaf_path: ov(self.bpaf_path),
            custom_name: ov(self.custom_name),
            private: self.private,
            boxed: self.boxed,
            ignore_rustdoc: self.ignore_rustdoc,
            attrs: posts_view(self.attrs@),
        }
    }
}

/// Reads the items of one annotation of the struct or enum.
fn parse_struct_attrs(items: &Vec<Inner<String>>) -> (r: Result<StructAttrState, DeriveError>)
    ensures
        match r {
            Result::Ok(st) => struct_items(struct_state_init(), inners_view(items@)) == Result::<StructAttrStateSpec, DeriveError>::Ok(st@),
            Result::Err(e) => struct_items(struct_state_init(), inners_view(items@)) == Result::<StructAttrStateSpec, DeriveError>::Err(e),
        },
{
    let mut st = StructAttrState {
        command: Option::None,
        options: Option::None,
        parser: Option::Some(ParserCfg { group_help: Option::None }),
        adjacent: false,
        fallback: Option::None,
        bpaf_path: Option::None,
        custom_name: Option::None,
        private: false,
        boxed: false,
        ignore_rustdoc: false,
        attrs: Vec::new(),
        first: true,
    };
    assert(st@.attrs =~= Seq::<Post<Seq<char>>>::empty());
    assert(st@ == struct_state_init());
    let ghost whole = inners_view(items@);
    let mut i: usize = 0;
    assert(whole.subrange(0, whole.len() as int) =~= whole);
    while i < items.len()
        invariant
            i <= items@.len(),
            whole == inners_view(items@),
            struct_items(struct_state_init(), whole) == struct_items(st@, whole.subrange(i as int, whole.len() as int)),
        decreases items@.len() - i,
    {
        let ghost rest = whole.subrange(i as int, whole.len() as int);
        assert(rest[0] == items@[i as int]@);
        assert(rest.drop_first() =~= whole.subrange(i + 1, whole.len() as int));
        match struct_item_exec(&mut st, &items[i]) {
            Result::Ok(()) => {},
            Result::Err(e) => return Result::Err(e),
        }
        i = i + 1;
    }
    assert(whole.subrange(i as int, whole.len() as int) =~= Seq::<Inner<Seq<char>>>::empty());
    Result::Ok(st)
}

fn or_else_exec(a: Option<String>, b: Option<String>) -> (r: Option<String>)
    ensures
        ov(r) == or_else(ov(a), ov(b)),
{
    match a {
        Option::Some(x) => Option::Some(x),
        Option::None => b,
    }
}

/// Reads every annotation of the struct or enum.
pub fn top_info(lists: &Vec<Vec<Inner<String>>>) -> (r: Result<TopInfo, DeriveError>)
    ensures
        match r {
            Result::Ok(t) => top_info_of(top_info_init(), lists_view(lists@)) == Result::<TopInfoSpec, DeriveError>::Ok(t@),
            Result::Err(e) => top_info_of(top_info_init(), lists_view(lists@)) == Result::<TopInfoSpec, DeriveError>::Err(e),
        },
{
    let mut acc = TopInfo {
        adjacent: false,
        mode: Mode::default(),
        fallback: Option::None,
        bpaf_path: Option::None,
        custom_name: Option::None,
        private: false,
        boxed: false,
        ignore_rustdoc: false,
        attrs: Vec::new(),
    };
    assert(acc@.attrs =~= Seq::<Post<Seq<char>>>::empty());
    assert(acc@ == top_info_init());
    let ghost whole = lists_view(lists@);
    let mut i: usize = 0;
    assert(whole.subrange(0, whole.len() as int) =~= whole);
    while i < lists.len()
        invariant
            i <= lists@.len(),
            whole == lists_view(lists@),
            top_info_of(top_info_init(), whole) == top_info_of(acc@, whole.subrange(i as int, whole.len() as int)),
        decreases lists@.len() - i,
    {
        let ghost rest = whole.subrange(i as int, whole.len() as int);
        assert(rest[0] == inners_view(lists@[i as int]@));
        assert(rest.drop_first() =~= whole.subrange(i + 1, whole.len() as int));
        let st = match parse_struct_attrs(&lists[i]) {
            Result::Ok(st) => st,
            Result::Err(e) => return Result::Err(e),
        };
        let ghost stv = st@;
        let ghost st0 = st;
        let ghost accv = acc@;
        let mut st_attrs = st.attrs;
        let ghost sa = st_attrs@;
        let mut attrs = acc.attrs;
        let ghost aa = attrs@;
        attrs.append(&mut st_attrs);
        assert(posts_view(attrs@) =~= posts_view(aa) + posts_view(sa));
        let new_acc = TopInfo {
            adjacent: acc.adjacent || st.adjacent,
            mode: mode_of_exec(st.options, st.command, st.parser),
            fallback: or_else_exec(st.fallback, acc.fallback),
            bpaf_path: or_else_exec(st.bpaf_path, acc.bpaf_path),
            custom_name: or_else_exec(st.custom_name, acc.custom_name),
            private: acc.private || st.private,
            boxed: acc.boxed || st.boxed,
            ignore_rustdoc: acc.ignore_rustdoc || st.ignore_rustdoc,
            attrs,
        };
        assert(new_acc.mode@ == mode_of(st0@));
        acc = new_acc;
        assert(acc@ == merge_info(accv, stv));
        i = i + 1;
    }
    assert(whole.subrange(i as int, whole.len() as int) =~= Seq::<Seq<Inner<Seq<char>>>>::empty());
    Result::Ok(acc)
}

// ----------------------------------------------------------------------------
// variant annotations

/// What a variant's `#[bpaf(...)]` annotations set.
pub struct VariantAttrsSpec {
    pub is_command: bool,
    pub command_name: Option<Seq<char>>,
    pub skip: bool,
    pub hide: bool,
    pub fallback_to_usage: bool,
    pub long_aliases: Seq<Seq<char>>,
    pub short_aliases: Seq<char>,
    pub help: Option<Seq<char>>,
}

pub open spec fn variant_attrs_init() -> VariantAttrsSpec {
    VariantAttrsSpec {
        is_command: false,
        command_name: Option::None,
        skip: false,
        hide: false,
        fallback_to_usage: false,
        long_aliases: Seq::empty(),
        short_aliases: Seq::empty(),
        help: Option::None,
    }
}

/// One item of a variant's annotation; a second `command` is refused.
pub open spec fn variant_item(ed: VariantAttrsSpec, x: Inner<Seq<char>>) -> Result<
    VariantAttrsSpec,
    DeriveError,
> {
    let p = x.payload;
    match x.kw {
        Option::Some(Kw::Command) => if ed.is_command {
            Result::Err(DeriveError::MultipleCommands)
        } else {
            Result::Ok(
                VariantAttrsSpec {
                    is_command: true,
                    command_name: match crate::attrs::payload_lit(p) {
                        Option::Some(l) => Option::Some(lit_content(l)),
                        Option::None => Option::None,
                    },
                    ..ed
                },
            )
        },
        Option::Some(Kw::Skip) => Result::Ok(VariantAttrsSpec { skip: true, ..ed }),
        Option::Some(Kw::Hide) => Result::Ok(VariantAttrsSpec { hide: true, ..ed }),
        Option::Some(Kw::FallbackToUsage) => Result::Ok(
            VariantAttrsSpec { fallback_to_usage: true, ..ed },
        ),
        Option::Some(Kw::Long) => Result::Ok(
            match crate::attrs::payload_lit(p) {
                Option::Some(l) => VariantAttrsSpec {
                    long_aliases: ed.long_aliases.push(lit_content(l)),
                    ..ed
                },
                Option::None => ed,
            },
        ),
        Option::Some(Kw::Short) => Result::Ok(
            match p {
                Payload::OptChar(Option::Some(c)) => VariantAttrsSpec {
                    short_aliases: ed.short_aliases.push(c),
                    ..ed
                },
                _ => ed,
            },
        ),
        Option::Some(Kw::Help) => Result::Ok(
            VariantAttrsSpec { help: Option::Some(trim_quotes(payload_raw_lit(p))), ..ed },
        ),
        _ => Result::Ok(ed),
    }
}

pub open spec fn variant_items(ed: VariantAttrsSpec, items: Seq<Inner<Seq<char>>>) -> Result<
    VariantAttrsSpec,
    DeriveError,
>
    decreases items.len(),
{
    if items.len() == 0 {
        Result::Ok(ed)
    } else {
        match variant_item(ed, items[0]) {
            Result::Ok(e2) => variant_items(e2, items.drop_first()),
            Result::Err(e) => Result::Err(e),
        }
    }
}

/// Every annotation of a variant, in order.
pub open spec fn variant_lists(ed: VariantAttrsSpec, lists: Seq<Seq<Inner<Seq<char>>>>) -> Result<
    VariantAttrsSpec,
    DeriveError,
>
    decreases lists.len(),
{
    if lists.len() == 0 {
        Result::Ok(ed)
    } else {
        match variant_items(ed, lists[0]) {
            Result::Ok(e2) => variant_lists(e2, lists.drop_first()),
            Result::Err(e) => Result::Err(e),
        }
    }
}

/// What a variant's annotations set.
pub struct VariantAttrs {
    pub is_command: bool,
    pub command_name: Option<String>,
    pub skip: bool,
    pub hide: bool,
    pub fallback_to_usage: bool,
    pub long_aliases: Vec<String>,
    pub short_aliases: Vec<char>,
    pub help: Option<String>,
}

impl View for VariantAttrs {
    type V = VariantAttrsSpec;

    open spec fn view(&self) -> VariantAttrsSpec {
        VariantAttrsSpec {
            is_command: self.is_command,
            command_name: ov(self.command_name),
            skip: self.skip,
            hide: self.hide,
            fallback_to_usage: self.fallback_to_usage,
            long_aliases: texts_view(self.long_aliases@),
            short_aliases: self.short_aliases@,
            help: ov(self.help),
        }
    }
}

fn variant_item_exec(ed: &mut VariantAttrs, x: &Inner<String>) -> (r: Result<(), DeriveError>)
    ensures
        match r {
            Result::Ok(()) => variant_item(old(ed)@, x@) == Result::<VariantAttrsSpec, DeriveError>::Ok(final(ed)@),
            Result::Err(e) => variant_item(old(ed)@, x@) == Result::<VariantAttrsSpec, DeriveError>::Err(e),
        },
{
    let p = &x.payload;
    match x.kw {
        Option::Some(Kw::Command) => {
            if ed.is_command {
                return Result::Err(DeriveError::MultipleCommands);
            }
            ed.is_command = true;
            ed.command_name = match p {
                Payload::OptLit(Option::Some(l)) => Option::Some(lit_content_exec(l)),
                Payload::Lit(l) => Option::Some(lit_content_exec(l)),
                _ => Option::None,
            };
        },
        Option::Some(Kw::Skip) => {
            ed.skip = true;
        },
        Option::Some(Kw::Hide) => {
            ed.hide = true;
        },
        Option::Some(Kw::FallbackToUsage) => {
            ed.fallback_to_usage = true;
        },
        Option::Some(Kw::Long) => {
            let l = match p {
                Payload::OptLit(Option::Some(l)) => Option::Some(lit_content_exec(l)),
                Payload::Lit(l) => Option::Some(lit_content_exec(l)),
                _ => Option::None,
            };
            if let Option::Some(l) = l {
                let ghost lv = l@;
                let ghost before = ed.long_aliases@;
                ed.long_aliases.push(l);
                assert(texts_view(ed.long_aliases@) =~= texts_view(before).push(lv));
            }
        },
        Option::Some(Kw::Short) => {
            if let Payload::OptChar(Option::Some(c)) = p {
                ed.short_aliases.push(*c);
            }
        },
        Option::Some(Kw::Help) => {
            let raw = payload_raw_lit_exec(p);
            ed.help = Option::Some(trim_quotes_exec(&raw));
        },
        _ => {},
    }
    Result::Ok(())
}

/// Parse variant-level attributes from #[bpaf(...)]
pub fn parse_variant_attrs(lists: &Vec<Vec<Inner<String>>>) -> (r: Result<VariantAttrs, DeriveError>)
    ensures
        match r {
            Result::Ok(ed) => variant_lists(variant_attrs_init(), lists_view(lists@)) == Result::<VariantAttrsSpec, DeriveError>::Ok(ed@),
            Result::Err(e) => variant_lists(variant_attrs_init(), lists_view(lists@)) == Result::<VariantAttrsSpec, DeriveError>::Err(e),
        },
{
    let mut ed = VariantAttrs {
        is_command: false,
        command_name: Option::None,
        skip: false,
        hide: false,
        fallback_to_usage: false,
        long_aliases: Vec::new(),
        short_aliases: Vec::new(),
        help: Option::None,
    };
    assert(ed@.long_aliases =~= Seq::<Seq<char>>::empty());
    assert(ed@.short_aliases =~= Seq::<char>::empty());
    assert(ed@ == variant_attrs_init());
    let ghost whole = lists_view(lists@);
    let mut i: usize = 0;
    assert(whole.subrange(0, whole.len() as int) =~= whole);
    while i < lists.len()
        invariant
            i <= lists@.len(),
            whole == lists_view(lists@),
            variant_lists(variant_attrs_init(), whole) == variant_lists(ed@, whole.subrange(i as int, whole.len() as int)),
        decreases lists@.len() - i,
    {
        let ghost rest = whole.subrange(i as int, whole.len() as int);
        assert(rest[0] == inners_view(lists@[i as int]@));
        assert(rest.drop_first() =~= whole.subrange(i + 1, whole.len() as int));
        let items = &lists[i];
        let ghost iv = inners_view(items@);
        let ghost after = whole.subrange(i + 1, whole.len() as int);
        let mut j: usize = 0;
        assert(iv.subrange(0, iv.len() as int) =~= iv);
        while j < items.len()
            invariant
                j <= items@.len(),
                iv == inners_view(items@),
                whole == lists_view(lists@),
                variant_lists(variant_attrs_init(), whole) == match variant_items(ed@, iv.subrange(j as int, iv.len() as int)) {
                    Result::Ok(e2) => variant_lists(e2, after),
                    Result::Err(e) => Result::Err(e),
                },
            decreases items@.len() - j,
        {
            let ghost r = iv.subrange(j as int, iv.len() as int);
            assert(r[0] == items@[j as int]@);
            assert(r.drop_first() =~= iv.subrange(j + 1, iv.len() as int));
            let ghost before = ed@;
            match variant_item_exec(&mut ed, &items[j]) {
                Result::Ok(()) => {},
                Result::Err(e) => {
                    assert(variant_items(before, r) == Result::<VariantAttrsSpec, DeriveError>::Err(e));
                    return Result::Err(e);
                },
            }
            j = j + 1;
        }
        assert(iv.subrange(j as int, iv.len() as int) =~= Seq::<Inner<Seq<char>>>::empty());
        i = i + 1;
    }
    assert(whole.subrange(i as int, whole.len() as int) =~= Seq::<Seq<Inner<Seq<char>>>>::empty());
    Result::Ok(ed)
}

// ----------------------------------------------------------------------------
// doc comments

/// `char::is_whitespace`: the characters with the Unicode `White_Space` property.
pub open spec fn is_white_space(c: char) -> bool {
    let u = c as u32;
    (9 <= u <= 13) || u == 32 || u == 0x85 || u == 0xA0 || u == 0x1680 || (0x2000 <= u <= 0x200A)
        || u == 0x2028 || u == 0x2029 || u == 0x202F || u == 0x205F || u == 0x3000
}

/// The end of `s.subrange(0, j)` without its trailing white space.
pub open spec fn ws_end(s: Seq<char>, j: int) -> int
    decreases j,
{
    if j <= 0 || j > s.len() || !is_white_space(s[j - 1]) {
        j
    } else {
        ws_end(s, j - 1)
    }
}

/// `s` without trailing white space.
pub open spec fn trim_end(s: Seq<char>) -> Seq<char> {
    s.subrange(0, ws_end(s, s.len() as int))
}

/// Doc lines read so far: finished paragraphs, the current one, and whether the last
/// line was empty.
pub struct ParaState {
    pub paragraphs: Seq<Seq<char>>,
    pub current: Seq<char>,
    pub prev_empty: bool,
}

pub open spec fn para_init() -> ParaState {
    ParaState { paragraphs: Seq::empty(), current: Seq::empty(), prev_empty: false }
}

/// One doc line: two empty lines in a row end a paragraph; one empty line inside a
/// paragraph becomes an empty line in it.
pub open spec fn para_step(st: ParaState, d: Seq<char>) -> ParaState {
    let content = strip_one_space(d);
    if content.len() == 0 {
        if st.prev_empty && st.current.len() > 0 {
            ParaState {
                paragraphs: st.paragraphs.push(trim_end(st.current)),
                current: Seq::empty(),
                prev_empty: false,
            }
        } else {
            ParaState { prev_empty: true, ..st }
        }
    } else {
        let cur = if st.prev_empty && st.current.len() > 0 {
            st.current.push('\n')
        } else {
            st.current
        };
        ParaState { current: cur + content + seq!['\n'], prev_empty: false, ..st }
    }
}

pub open spec fn para_fold(st: ParaState, docs: Seq<Seq<char>>) -> ParaState
    decreases docs.len(),
{
    if docs.len() == 0 {
        st
    } else {
        para_fold(para_step(st, docs[0]), docs.drop_first())
    }
}

/// The paragraphs of the doc lines, trailing white space removed from each.
pub open spec fn doc_paragraph_list(docs: Seq<Seq<char>>) -> Seq<Seq<char>> {
    let st = para_fold(para_init(), docs);
    if st.current.len() > 0 {
        st.paragraphs.push(trim_end(st.current))
    } else {
        st.paragraphs
    }
}

/// The first paragraph, the second if not empty, and the others joined by a new line.
pub open spec fn doc_paragraphs(docs: Seq<Seq<char>>) -> (Option<Seq<char>>, Option<Seq<char>>, Option<Seq<char>>) {
    let ps = doc_paragraph_list(docs);
    (
        if ps.len() > 0 {
            Option::Some(ps[0])
        } else {
            Option::None
        },
        if ps.len() > 1 && ps[1].len() > 0 {
            Option::Some(ps[1])
        } else {
            Option::None
        },
        if ps.len() > 2 {
            Option::Some(join(ps.subrange(2, ps.len() as int), "\n"@))
        } else {
            Option::None
        },
    )
}

/// Options mode: the first paragraph is the description, the second the header, the
/// others the footer, each only where the annotation gave none.
pub open spec fn split_options(docs: Seq<Seq<char>>, o: OptionsCfg<Seq<char>>) -> OptionsCfg<Seq<char>> {
    let (f, s, r) = doc_paragraphs(docs);
    let o1 = match f {
        Option::Some(t) => if o.descr is None {
            OptionsCfg { descr: Option::Some(string_literal(t)), ..o }
        } else {
            o
        },
        Option::None => o,
    };
    let o2 = match s {
        Option::Some(t) => if o1.header is None {
            OptionsCfg { header: Option::Some(string_literal(t)), ..o1 }
        } else {
            o1
        },
        Option::None => o1,
    };
    match r {
        Option::Some(t) => if o2.footer is None {
            OptionsCfg { footer: Option::Some(string_literal(t)), ..o2 }
        } else {
            o2
        },
        Option::None => o2,
    }
}

/// Doc comments never replace a description, header or footer that the attributes
/// give.
pub proof fn docs_keep_explicit_options(docs: Seq<Seq<char>>, o: OptionsCfg<Seq<char>>)
    ensures
        o.descr is Some ==> split_options(docs, o).descr == o.descr,
        o.header is Some ==> split_options(docs, o).header == o.header,
        o.footer is Some ==> split_options(docs, o).footer == o.footer,
        split_options(docs, o).cargo_helper == o.cargo_helper,
        split_options(docs, o).usage == o.usage,
        split_options(docs, o).version == o.version,
        split_options(docs, o).max_width == o.max_width,
        split_options(docs, o).fallback_usage == o.fallback_usage,
{
}

pub open spec fn some_parts(f: Option<Seq<char>>, s: Option<Seq<char>>, r: Option<Seq<char>>) -> Seq<Seq<char>> {
    let a: Seq<Seq<char>> = match f {
        Option::Some(t) => seq![t],
        Option::None => Seq::empty(),
    };
    let b = match s {
        Option::Some(t) => a.push(t),
        Option::None => a,
    };
    match r {
        Option::Some(t) => b.push(t),
        Option::None => b,
    }
}

/// Parser mode: every paragraph, joined by a new line.
pub open spec fn parser_doc_text(docs: Seq<Seq<char>>) -> Seq<char> {
    let (f, s, r) = doc_paragraphs(docs);
    join(some_parts(f, s, r), "\n"@)
}

/// The mode after the struct's or enum's doc comments are applied (when they are
/// not ignored and there are some).
pub open spec fn mode_with_docs(m: ModeSpec, docs: Seq<Seq<char>>) -> ModeSpec {
    match m {
        ModeSpec::Options { options } => ModeSpec::Options { options: split_options(docs, options) },
        ModeSpec::Command { command, options } => ModeSpec::Command {
            command,
            options: split_options(docs, options),
        },
        ModeSpec::Parser { parser } => if parser.group_help is None {
            ModeSpec::Parser {
                parser: ParserCfg { group_help: Option::Some(string_literal(parser_doc_text(docs))) },
            }
        } else {
            m
        },
    }
}

fn is_white_space_exec(c: char) -> (r: bool)
    ensures
        r == is_white_space(c),
{
    let u = c as u32;
    (9 <= u && u <= 13) || u == 32 || u == 0x85 || u == 0xA0 || u == 0x1680 || (0x2000 <= u && u
        <= 0x200A) || u == 0x2028 || u == 0x2029 || u == 0x202F || u == 0x205F || u == 0x3000
}

/// `s` without trailing white space.
pub fn trim_end_exec(s: &String) -> (r: String)
    ensures
        r@ == trim_end(s@),
{
    let t = s.as_str();
    let n = t.unicode_len();
    let mut k: usize = n;
    loop
        invariant
            n == s@.len(),
            t@ == s@,
            k <= n,
            ws_end(s@, k as int) == ws_end(s@, n as int),
        ensures
            k <= n,
            ws_end(s@, n as int) == k,
        decreases k,
    {
        if k == 0 || !is_white_space_exec(t.get_char(k - 1)) {
            break;
        }
        k = k - 1;
    }
    crate::tokens::sub_text(t, 0, k)
}

fn append_string(a: &mut String, b: &String)
    ensures
        final(a)@ == old(a)@ + b@,
{
    push_text(a, b.as_str());
}

/// Parse doc comments into paragraphs: (first_paragraph, second_paragraph, remaining_paragraphs)
pub fn parse_doc_paragraphs(doc_attrs: &Vec<String>) -> (r: (Option<String>, Option<String>, Option<String>))
    ensures
        (ov(r.0), ov(r.1), ov(r.2)) == doc_paragraphs(texts_view(doc_attrs@)),
{
    let ghost docs = texts_view(doc_attrs@);
    let mut paragraphs: Vec<String> = Vec::new();
    let mut current = String::new();
    let mut prev_empty = false;
    let mut i: usize = 0;
    assert(texts_view(paragraphs@) =~= Seq::<Seq<char>>::empty());
    assert(docs.subrange(0, docs.len() as int) =~= docs);
    while i < doc_attrs.len()
        invariant
            i <= doc_attrs@.len(),
            docs == texts_view(doc_attrs@),
            para_fold(para_init(), docs) == para_fold(
                ParaState { paragraphs: texts_view(paragraphs@), current: current@, prev_empty },
                docs.subrange(i as int, docs.len() as int),
            ),
        decreases doc_attrs@.len() - i,
    {
        let ghost rest = docs.subrange(i as int, docs.len() as int);
        assert(rest[0] == doc_attrs@[i as int]@);
        assert(rest.drop_first() =~= docs.subrange(i + 1, docs.len() as int));
        let ghost st = ParaState { paragraphs: texts_view(paragraphs@), current: current@, prev_empty };
        let d = doc_attrs[i].as_str();
        let n = d.unicode_len();
        let content = if n > 0 && d.get_char(0) == ' ' {
            crate::tokens::sub_text(d, 1, n)
        } else {
            copy_text(d)
        };
        assert(content@ == strip_one_space(doc_attrs@[i as int]@));
        if content.as_str().unicode_len() == 0 {
            if prev_empty && current.as_str().unicode_len() > 0 {
                let t = trim_end_exec(&current);
                let ghost tv = t@;
                let ghost before = paragraphs@;
                paragraphs.push(t);
                assert(texts_view(paragraphs@) =~= texts_view(before).push(tv));
                current = String::new();
                prev_empty = false;
            } else {
                prev_empty = true;
            }
        } else {
            let ghost cur0 = if prev_empty && current@.len() > 0 {
                current@.push('\n')
            } else {
                current@
            };
            if prev_empty && current.as_str().unicode_len() > 0 {
                push_char(&mut current, '\n');
            }
            assert(current@ == cur0);
            append_string(&mut current, &content);
            push_char(&mut current, '\n');
            assert(current@ =~= cur0 + content@ + seq!['\n']);
            prev_empty = false;
        }
        assert(ParaState { paragraphs: texts_view(paragraphs@), current: current@, prev_empty } == para_step(st, rest[0]));
        i = i + 1;
    }
    assert(docs.subrange(i as int, docs.len() as int) =~= Seq::<Seq<char>>::empty());
    if current.as_str().unicode_len() > 0 {
        let t = trim_end_exec(&current);
        let ghost tv = t@;
        let ghost before = paragraphs@;
        paragraphs.push(t);
        assert(texts_view(paragraphs@) =~= texts_view(before).push(tv));
    }
    let ghost ps = texts_view(paragraphs@);
    assert(ps == doc_paragraph_list(docs));
    let first = if paragraphs.len() > 0 {
        Option::Some(copy_text(paragraphs[0].as_str()))
    } else {
        Option::None
    };
    let second = if paragraphs.len() > 1 && paragraphs[1].as_str().unicode_len() > 0 {
        Option::Some(copy_text(paragraphs[1].as_str()))
    } else {
        Option::None
    };
    let rest = if paragraphs.len() > 2 {
        let mut tail: Vec<String> = Vec::new();
        let mut k: usize = 2;
        while k < paragraphs.len()
            invariant
                2 <= k <= paragraphs@.len(),
                texts_view(tail@) =~= texts_view(paragraphs@).subrange(2, k as int),
            decreases paragraphs@.len() - k,
        {
            tail.push(copy_text(paragraphs[k].as_str()));
            assert(texts_view(paragraphs@).subrange(2, k + 1) =~= texts_view(paragraphs@).subrange(2, k as int).push(paragraphs@[k as int]@));
            k = k + 1;
        }
        Option::Some(join_exec(&tail, "\n"))
    } else {
        Option::None
    };
    (first, second, rest)
}

/// Split doc comments into descr/header/footer for Options mode
pub fn split_options_help(doc_attrs: &Vec<String>, opts: &mut OptionsCfg)
    ensures
        final(opts)@ == split_options(texts_view(doc_attrs@), old(opts)@),
{
    let (first, second, rest) = parse_doc_paragraphs(doc_attrs);
    if let Option::Some(descr) = first {
        if opts.descr.is_none() {
            opts.descr = Option::Some(quote_str(descr.as_str()));
        }
    }
    if let Option::Some(header) = second {
        if opts.header.is_none() {
            opts.header = Option::Some(quote_str(header.as_str()));
        }
    }
    if let Option::Some(footer) = rest {
        if opts.footer.is_none() {
            opts.footer = Option::Some(quote_str(footer.as_str()));
        }
    }
}

/// Parser mode: every paragraph joined by a new line.
fn parser_doc_text_exec(doc_attrs: &Vec<String>) -> (r: String)
    ensures
        r@ == parser_doc_text(texts_view(doc_attrs@)),
{
    let (first, second, rest) = parse_doc_paragraphs(doc_attrs);
    let ghost (f, s, r) = doc_paragraphs(texts_view(doc_attrs@));
    let mut parts: Vec<String> = Vec::new();
    if let Option::Some(t) = first {
        parts.push(t);
    }
    if let Option::Some(t) = second {
        parts.push(t);
    }
    if let Option::Some(t) = rest {
        parts.push(t);
    }
    assert(texts_view(parts@) =~= some_parts(f, s, r));
    join_exec(&parts, "\n")
}

/// Applies the struct's or enum's doc comments to the mode.
pub fn apply_top_docs(mode: &mut Mode, doc_attrs: &Vec<String>)
    ensures
        final(mode)@ == mode_with_docs(old(mode)@, texts_view(doc_attrs@)),
{
    match mode {
        Mode::Options { options } => split_options_help(doc_attrs, options),
        Mode::Command { options, .. } => split_options_help(doc_attrs, options),
        Mode::Parser { parser } => {
            if parser.group_help.is_none() {
                let text = parser_doc_text_exec(doc_attrs);
                parser.group_help = Option::Some(quote_str(text.as_str()));
            }
        },
    }
}

/// Extract all doc comments as individual strings
pub fn extract_doc_comments(doc_attrs: &Vec<String>) -> (r: Vec<String>)
    ensures
        texts_view(r@) == texts_view(doc_attrs@).map_values(|d: Seq<char>| strip_one_space(d)),
{
    strip_doc_lines(doc_attrs)
}

// ----------------------------------------------------------------------------
// fields, variants and the annotated item

/// Represents a single field in a struct
pub struct StructField {
    /// Field name
    pub name: String,
    /// Field type (as code text)
    pub ty: String,
    /// The shape of the field's type (includes inner type for Option/Vec)
    pub shape: TypeShape,
    /// Parsed attributes from #[bpaf(...)]
    pub attrs: FieldAttrs,
}

pub struct StructFieldSpec {
    pub name: Seq<char>,
    pub ty: Seq<char>,
    pub shape: TypeShape<Seq<char>>,
    pub attrs: FieldAttrsSpec,
}

impl View for StructField {
    type V = StructFieldSpec;

    open spec fn view(&self) -> StructFieldSpec {
        StructFieldSpec { name: self.name@, ty: self.ty@, shape: self.shape@, attrs: self.attrs@ }
    }
}

pub open spec fn fields_view(v: Seq<StructField>) -> Seq<StructFieldSpec> {
    v.map_values(|f: StructField| f@)
}

/// Represents an enum variant
pub struct EnumBranch {
    /// Variant name
    pub name: String,
    /// Fields in the variant (if any)
    pub fields: Vec<StructField>,
    /// Doc comments extracted from #[doc = "..."]
    pub doc_comments: Vec<String>,
    /// Whether this variant has #[bpaf(command)]
    pub is_command: bool,
    /// Custom command name from #[bpaf(command("name"))]
    pub command_name: Option<String>,
    /// Whether this variant has #[bpaf(skip)]
    pub skip: bool,
    /// Whether this variant has #[bpaf(hide)]
    pub hide: bool,
    /// Whether this variant has #[bpaf(fallback_to_usage)]
    pub fallback_to_usage: bool,
    /// Whether this is a tuple variant (e.g., Variant(Type))
    pub is_tuple: bool,
    /// Long aliases from #[bpaf(long("alias"))]
    pub long_aliases: Vec<String>,
    /// Short aliases from #[bpaf(short('x'))]
    pub short_aliases: Vec<char>,
    /// Explicit help text from #[bpaf(help("..."))]
    pub help: Option<String>,
}

pub struct EnumBranchSpec {
    pub name: Seq<char>,
    pub fields: Seq<StructFieldSpec>,
    pub doc_comments: Seq<Seq<char>>,
    pub is_command: bool,
    pub command_name: Option<Seq<char>>,
    pub skip: bool,
    pub hide: bool,
    pub fallback_to_usage: bool,
    pub is_tuple: bool,
    pub long_aliases: Seq<Seq<char>>,
    pub short_aliases: Seq<char>,
    pub help: Option<Seq<char>>,
}

impl View for EnumBranch {
    type V = EnumBranchSpec;

    open spec fn view(&self) -> EnumBranchSpec {
        EnumBranchSpec {
            name: self.name@,
            fields: fields_view(self.fields@),
            doc_comments: texts_view(self.doc_comments@),
            is_command: self.is_command,
            command_name: ov(self.command_name),
            skip: self.skip,
            hide: self.hide,
            fallback_to_usage: self.fallback_to_usage,
            is_tuple: self.is_tuple,
            long_aliases: texts_view(self.long_aliases@),
            short_aliases: self.short_aliases@,
            help: ov(self.help),
        }
    }
}

pub open spec fn branches_view(v: Seq<EnumBranch>) -> Seq<EnumBranchSpec> {
    v.map_values(|b: EnumBranch| b@)
}

/// The body of the derived item
pub enum Body {
    /// Struct with fields
    Struct(Vec<StructField>),
    /// Enum with variants
    Enum(Vec<EnumBranch>),
}

pub enum BodySpec {
    Struct(Seq<StructFieldSpec>),
    Enum(Seq<EnumBranchSpec>),
}

impl View for Body {
    type V = BodySpec;

    open spec fn view(&self) -> BodySpec {
        match self {
            Body::Struct(f) => BodySpec::Struct(fields_view(f@)),
            Body::Enum(b) => BodySpec::Enum(branches_view(b@)),
        }
    }
}

/// Represents the top-level item being derived
pub struct Top {
    /// Name of the struct or enum
    pub name: String,
    /// Body: either struct fields or enum variants
    pub body: Body,
    /// Whether the struct/enum has #[bpaf(adjacent)] attribute
    pub adjacent: bool,
    /// Mode for the generated parser function
    pub mode: Mode,
    /// Fallback value for the parser (from #[bpaf(fallback(...))]), as code
    pub fallback: Option<String>,
    /// Custom path to the bpaf crate (from #[bpaf(path(...))]), as code
    pub bpaf_path: Option<String>,
    /// Custom function name (from #[bpaf(generate(...))])
    pub custom_name: Option<String>,
    /// Generate private function (from #[bpaf(private)])
    pub private: bool,
    /// Add .boxed() wrapper (from #[bpaf(boxed)])
    pub boxed: bool,
    /// Top-level PostDecor attributes (guard, hide, etc.)
    pub attrs: Vec<Post>,
}

pub struct TopSpec {
    pub name: Seq<char>,
    pub body: BodySpec,
    pub adjacent: bool,
    pub mode: ModeSpec,
    pub fallback: Option<Seq<char>>,
    pub bpaf_path: Option<Seq<char>>,
    pub custom_name: Option<Seq<char>>,
    pub private: bool,
    pub boxed: bool,
    pub attrs: Seq<Post<Seq<char>>>,
}

impl View for Top {
    type V = TopSpec;

    open spec fn view(&self) -> TopSpec {
        TopSpec {
            name: self.name@,
            body: self.body@,
            adjacent: self.adjacent,
            mode: self.mode@,
            fallback: ov(self.fallback),
            bpaf_path: ov(self.bpaf_path),
            custom_name: ov(self.custom_name),
            private: self.private,
            boxed: self.boxed,
            attrs: posts_view(self.attrs@),
        }
    }
}

/// A named field `attrs vis name: Type,` at `i`.
pub struct RawFieldSpec {
    pub attrs: CollectedSpec,
    pub name: Seq<char>,
    pub ty: Seq<char>,
    pub shape: TypeShape<Seq<char>>,
    pub next: int,
}

/// A named field at `i`: attributes, visibility, name, `:`, type tokens up to a comma
/// (the comma is consumed) and a type shape.
pub open spec fn named_field_at(c: Seq<Tok>, i: int) -> Option<RawFieldSpec> {
    let a = attrs_from(c, i);
    let j = vis_end(c, a.end);
    if 0 <= j && j + 1 < c.len() && is_ident(c[j]) && is_punct(c[j + 1], ':') {
        match verbatim_until(c, j + 2, ',', c.len() as int) {
            Option::Some(k) => match type_shape(c, j + 2, k) {
                Option::Some(sh) => Option::Some(
                    RawFieldSpec {
                        attrs: a,
                        name: ident_text(c[j]),
                        ty: crate::grammar::text_of(c, j + 2, k),
                        shape: sh,
                        next: if k < c.len() && is_punct(c[k], ',') {
                            k + 1
                        } else {
                            k
                        },
                    },
                ),
                Option::None => Option::None,
            },
            Option::None => Option::None,
        }
    } else {
        Option::None
    }
}

/// Named fields from `i` while they parse; a refused field annotation is an error.
pub open spec fn fields_from(c: Seq<Tok>, i: int) -> Result<Seq<StructFieldSpec>, DeriveError>
    decreases c.len() - i,
{
    match named_field_at(c, i) {
        Option::None => Result::Ok(Seq::empty()),
        Option::Some(f) => match field_attrs_of(f.name, f.attrs.bpaf, f.attrs.docs) {
            Result::Err(e) => Result::Err(e),
            Result::Ok(fa) => {
                let field = StructFieldSpec { name: f.name, ty: f.ty, shape: f.shape, attrs: fa };
                if i < f.next <= c.len() {
                    match fields_from(c, f.next) {
                        Result::Ok(rest) => Result::Ok(seq![field] + rest),
                        Result::Err(e) => Result::Err(e),
                    }
                } else {
                    Result::Ok(seq![field])
                }
            },
        },
    }
}

/// The digits of `n`.
pub open spec fn decimal(n: nat) -> Seq<char>
    decreases n,
{
    if n < 10 {
        seq![((48 + n) as u8) as char]
    } else {
        decimal(n / 10).push(((48 + n % 10) as u8) as char)
    }
}

/// A tuple field `attrs vis Type` at `i`: its attributes and where its type starts and ends.
pub open spec fn tuple_field_at(c: Seq<Tok>, i: int) -> Option<(CollectedSpec, int, int)> {
    let a = attrs_from(c, i);
    let j = vis_end(c, a.end);
    match verbatim_until(c, j, ',', c.len() as int) {
        Option::Some(k) => Option::Some((a, j, k)),
        Option::None => Option::None,
    }
}

/// Comma separated tuple fields from `i` to the end.
pub open spec fn tuple_fields(c: Seq<Tok>, i: int) -> Option<Seq<(CollectedSpec, int, int)>>
    decreases c.len() - i,
{
    match tuple_field_at(c, i) {
        Option::None => if i == c.len() {
            Option::Some(Seq::empty())
        } else {
            Option::None
        },
        Option::Some((a, s, k)) => if k <= i || k > c.len() {
            Option::None
        } else if k < c.len() && is_punct(c[k], ',') {
            match tuple_fields(c, k + 1) {
                Option::Some(rest) => Option::Some(seq![(a, s, k)] + rest),
                Option::None => Option::None,
            }
        } else if k == c.len() {
            Option::Some(seq![(a, s, k)])
        } else {
            Option::None
        },
    }
}

/// Attributes of a tuple field with no annotation and no doc comment.
pub open spec fn default_tuple_attrs() -> FieldAttrsSpec {
    FieldAttrsSpec {
        consumer: Option::Some(ConsumerType::Positional { metavar: Option::Some("ARG"@) }),
        ..crate::attrs::empty_field_attrs()
    }
}

/// The tuple fields from number `idx` on, named `field_<number>`: `Ok(None)` when a
/// type has no shape, an error when an annotation is refused (the first in order).
pub open spec fn convert_tuple(c: Seq<Tok>, raws: Seq<(CollectedSpec, int, int)>, idx: nat) -> Result<
    Option<Seq<StructFieldSpec>>,
    DeriveError,
>
    decreases raws.len(),
{
    if raws.len() == 0 {
        Result::Ok(Option::Some(Seq::empty()))
    } else {
        let (a, s, k) = raws[0];
        let name = "field_"@ + decimal(idx);
        match type_shape(c, s, k) {
            Option::None => Result::Ok(Option::None),
            Option::Some(sh) => {
                let attrs = if a.bpaf.len() == 0 && a.docs.len() == 0 {
                    Result::Ok(default_tuple_attrs())
                } else {
                    field_attrs_of(name, a.bpaf, a.docs)
                };
                match attrs {
                    Result::Err(e) => Result::Err(e),
                    Result::Ok(fa) => match convert_tuple(c, raws.drop_first(), idx + 1) {
                        Result::Ok(Option::Some(rest)) => Result::Ok(Option::Some(
                            seq![StructFieldSpec { name, ty: crate::grammar::text_of(c, s, k), shape: sh, attrs: fa }] + rest,
                        )),
                        other => other,
                    },
                }
            },
        }
    }
}

/// A variant before its annotations are read.
pub struct RawVariantSpec {
    pub attrs: CollectedSpec,
    pub name: Seq<char>,
    pub fields: Seq<StructFieldSpec>,
    pub is_tuple: bool,
    pub next: int,
}

/// A variant at `i`: attributes, name, and tuple fields, named fields or none;
/// `Ok(None)` where no variant starts; an error where a field annotation is refused.
/// A refused field annotation inside a variant is reported like one on a struct field,
/// so a bad annotation is never dropped together with the variants after it.
pub open spec fn variant_at(c: Seq<Tok>, i: int) -> Result<Option<RawVariantSpec>, DeriveError> {
    let a = attrs_from(c, i);
    let j = a.end;
    if 0 <= j < c.len() && is_ident(c[j]) {
        let name = ident_text(c[j]);
        if j + 1 < c.len() && is_paren(c[j + 1]) && tuple_fields(inner(c[j + 1]), 0) is Some {
            match convert_tuple(inner(c[j + 1]), tuple_fields(inner(c[j + 1]), 0).unwrap(), 0) {
                Result::Ok(Option::Some(fields)) => Result::Ok(Option::Some(
                    RawVariantSpec { attrs: a, name, fields, is_tuple: true, next: j + 2 },
                )),
                Result::Ok(Option::None) => Result::Ok(Option::None),
                Result::Err(e) => Result::Err(e),
            }
        } else if j + 1 < c.len() && is_brace(c[j + 1]) {
            match fields_from(inner(c[j + 1]), 0) {
                Result::Ok(fields) => Result::Ok(Option::Some(
                    RawVariantSpec { attrs: a, name, fields, is_tuple: false, next: j + 2 },
                )),
                Result::Err(e) => Result::Err(e),
            }
        } else {
            Result::Ok(Option::Some(
                RawVariantSpec { attrs: a, name, fields: Seq::empty(), is_tuple: false, next: j + 1 },
            ))
        }
    } else {
        Result::Ok(Option::None)
    }
}

pub open spec fn branch_of(v: RawVariantSpec, ed: VariantAttrsSpec) -> EnumBranchSpec {
    EnumBranchSpec {
        name: v.name,
        fields: v.fields,
        doc_comments: v.attrs.docs.map_values(|d: Seq<char>| strip_one_space(d)),
        is_command: ed.is_command,
        command_name: ed.command_name,
        skip: ed.skip,
        hide: ed.hide,
        fallback_to_usage: ed.fallback_to_usage,
        is_tuple: v.is_tuple,
        long_aliases: ed.long_aliases,
        short_aliases: ed.short_aliases,
        help: ed.help,
    }
}

/// Variants from `i` while they parse, each followed by an optional comma; a refused
/// variant annotation, or a refused annotation of one of a variant's fields, is an
/// error.
pub open spec fn variants_from(c: Seq<Tok>, i: int) -> Result<Seq<EnumBranchSpec>, DeriveError>
    decreases c.len() - i,
{
    match variant_at(c, i) {
        Result::Err(e) => Result::Err(e),
        Result::Ok(Option::None) => Result::Ok(Seq::empty()),
        Result::Ok(Option::Some(v)) => match variant_lists(variant_attrs_init(), v.attrs.bpaf) {
            Result::Err(e) => Result::Err(e),
            Result::Ok(ed) => {
                let b = branch_of(v, ed);
                let next = if 0 <= v.next < c.len() && is_punct(c[v.next], ',') {
                    v.next + 1
                } else {
                    v.next
                };
                if i < next <= c.len() {
                    match variants_from(c, next) {
                        Result::Ok(rest) => Result::Ok(seq![b] + rest),
                        Result::Err(e) => Result::Err(e),
                    }
                } else {
                    Result::Ok(seq![b])
                }
            },
        },
    }
}

/// The first position at or after `i` holding a brace group or a `;`.
pub open spec fn body_pos(s: Seq<Tok>, i: int) -> Option<int>
    decreases s.len() - i,
{
    if i < 0 || i >= s.len() {
        Option::None
    } else if is_brace(s[i]) || is_punct(s[i], ';') {
        Option::Some(i)
    } else {
        body_pos(s, i + 1)
    }
}

pub open spec fn top_with(info: TopInfoSpec, mode: ModeSpec, name: Seq<char>, body: BodySpec) -> TopSpec {
    TopSpec {
        name,
        body,
        adjacent: info.adjacent,
        mode,
        fallback: info.fallback,
        bpaf_path: info.bpaf_path,
        custom_name: info.custom_name,
        private: info.private,
        boxed: info.boxed,
        attrs: info.attrs,
    }
}

/// What `Top::parse` returns for the tokens of a struct or enum definition: its
/// outer attributes (annotations, then doc comments), visibility, `struct` or `enum`,
/// name, anything up to the body, and the body (`;` for a unit struct).
pub open spec fn top_of(s: Seq<Tok>) -> Result<TopSpec, DeriveError> {
    let a = attrs_from(s, 0);
    match top_info_of(top_info_init(), a.bpaf) {
        Result::Err(e) => Result::Err(e),
        Result::Ok(info) => {
            let mode = if !info.ignore_rustdoc && a.docs.len() > 0 {
                mode_with_docs(info.mode, a.docs)
            } else {
                info.mode
            };
            let k = vis_end(s, a.end);
            if 0 <= k < s.len() && (is_kw(s[k], "struct"@) || is_kw(s[k], "enum"@)) {
                let is_enum = is_kw(s[k], "enum"@);
                if k + 1 < s.len() && is_ident(s[k + 1]) {
                    let name = ident_text(s[k + 1]);
                    match body_pos(s, k + 2) {
                        Option::None => Result::Err(DeriveError::MissingBody),
                        Option::Some(m) => if is_brace(s[m]) {
                            if is_enum {
                                match variants_from(inner(s[m]), 0) {
                                    Result::Err(e) => Result::Err(e),
                                    Result::Ok(vs) => if vs.len() == 0 {
                                        Result::Err(DeriveError::EmptyEnum)
                                    } else {
                                        Result::Ok(top_with(info, mode, name, BodySpec::Enum(vs)))
                                    },
                                }
                            } else {
                                match fields_from(inner(s[m]), 0) {
                                    Result::Err(e) => Result::Err(e),
                                    Result::Ok(fs) => Result::Ok(top_with(info, mode, name, BodySpec::Struct(fs))),
                                }
                            }
                        } else {
                            Result::Ok(top_with(info, mode, name, BodySpec::Struct(Seq::empty())))
                        },
                    }
                } else {
                    Result::Err(DeriveError::MissingName)
                }
            } else {
                Result::Err(DeriveError::NotStructOrEnum)
            }
        },
    }
}

/// A named field before its annotations are read.
pub struct RawField {
    pub attrs: Collected,
    pub name: String,
    pub ty: String,
    pub shape: TypeShape,
    pub next: usize,
}

impl View for RawField {
    type V = RawFieldSpec;

    open spec fn view(&self) -> RawFieldSpec {
        RawFieldSpec {
            attrs: self.attrs@,
            name: self.name@,
            ty: self.ty@,
            shape: self.shape@,
            next: self.next as int,
        }
    }
}

fn named_field_at_exec(c: &Vec<Tok>, i: usize) -> (r: Option<RawField>)
    requires
        i <= c@.len(),
    ensures
        match r {
            Option::Some(f) => named_field_at(c@, i as int) == Option::Some(f@),
            Option::None => named_field_at(c@, i as int) is None,
        },
        r matches Option::Some(f) ==> i < f.next <= c@.len(),
{
    let a = attrs_from_exec(c, i);
    let j = vis_end_exec(c, a.end);
    if j < c.len() && c.len() - j > 1 && tok_is_punct(&c[j + 1], ':') {
        if let Tok::Ident(name) = &c[j] {
            match verbatim_until_exec(c, j + 2, ',', c.len()) {
                Option::Some(k) => {
                    match crate::grammar::type_shape_exec(c, j + 2, k) {
                        Option::Some(sh) => {
                            let next = if k < c.len() && tok_is_punct(&c[k], ',') {
                                k + 1
                            } else {
                                k
                            };
                            let ty = crate::tokens::range_text(c, j + 2, k);
                            return Option::Some(
                                RawField { attrs: a, name: copy_text(name.as_str()), ty, shape: sh, next },
                            );
                        },
                        Option::None => return Option::None,
                    }
                },
                Option::None => return Option::None,
            }
        }
    }
    Option::None
}

/// Parse named fields from the content of a brace group, from `i`.
pub fn parse_fields(c: &Vec<Tok>, i: usize) -> (r: Result<Vec<StructField>, DeriveError>)
    requires
        i <= c@.len(),
    ensures
        match r {
            Result::Ok(fs) => fields_from(c@, i as int) == Result::<Seq<StructFieldSpec>, DeriveError>::Ok(fields_view(fs@)),
            Result::Err(e) => fields_from(c@, i as int) == Result::<Seq<StructFieldSpec>, DeriveError>::Err(e),
        },
    decreases c@.len() - i,
{
    match named_field_at_exec(c, i) {
        Option::None => {
            let e: Vec<StructField> = Vec::new();
            assert(fields_view(e@) =~= Seq::empty());
            Result::Ok(e)
        },
        Option::Some(f) => {
            let ghost fv = f@;
            let attrs = match FieldAttrs::parse_from_attrs(f.name.as_str(), &f.attrs.bpaf, &f.attrs.docs) {
                Result::Ok(a) => a,
                Result::Err(e) => return Result::Err(e),
            };
            let next = f.next;
            let field = StructField { name: f.name, ty: f.ty, shape: f.shape, attrs };
            let ghost fieldv = field@;
            match parse_fields(c, next) {
                Result::Ok(rest) => {
                    let mut out: Vec<StructField> = Vec::new();
                    out.push(field);
                    let mut rest = rest;
                    let ghost rv = rest@;
                    out.append(&mut rest);
                    assert(fields_view(out@) =~= seq![fieldv] + fields_view(rv));
                    Result::Ok(out)
                },
                Result::Err(e) => Result::Err(e),
            }
        },
    }
}

/// The digits of `n`.
pub fn decimal_exec(n: usize) -> (r: String)
    ensures
        r@ == decimal(n as nat),
    decreases n,
{
    if n < 10 {
        let mut r = String::new();
        push_char(&mut r, ((48 + n) as u8) as char);
        assert(r@ =~= decimal(n as nat));
        r
    } else {
        let mut r = decimal_exec(n / 10);
        push_char(&mut r, ((48 + n % 10) as u8) as char);
        r
    }
}

fn tuple_field_at_exec(c: &Vec<Tok>, i: usize) -> (r: Option<(Collected, usize, usize)>)
    requires
        i <= c@.len(),
    ensures
        match r {
            Option::Some((a, s, k)) => tuple_field_at(c@, i as int) == Option::Some((a@, s as int, k as int)),
            Option::None => tuple_field_at(c@, i as int) is None,
        },
        r matches Option::Some((_, s, k)) ==> i <= s < k <= c@.len(),
{
    let a = attrs_from_exec(c, i);
    let j = vis_end_exec(c, a.end);
    match verbatim_until_exec(c, j, ',', c.len()) {
        Option::Some(k) => Option::Some((a, j, k)),
        Option::None => Option::None,
    }
}

pub open spec fn raws_view(v: Seq<(Collected, usize, usize)>) -> Seq<(CollectedSpec, int, int)> {
    v.map_values(|t: (Collected, usize, usize)| (t.0@, t.1 as int, t.2 as int))
}

fn tuple_fields_exec(c: &Vec<Tok>, i: usize) -> (r: Option<Vec<(Collected, usize, usize)>>)
    requires
        i <= c@.len(),
    ensures
        match r {
            Option::Some(l) => tuple_fields(c@, i as int) == Option::Some(raws_view(l@)),
            Option::None => tuple_fields(c@, i as int) is None,
        },
        r matches Option::Some(l) ==> forall|m: int| 0 <= m < l@.len() ==> (#[trigger] l@[m]).1 <= l@[m].2 <= c@.len(),
    decreases c@.len() - i,
{
    match tuple_field_at_exec(c, i) {
        Option::None => if i == c.len() {
            let e: Vec<(Collected, usize, usize)> = Vec::new();
            assert(raws_view(e@) =~= Seq::empty());
            Option::Some(e)
        } else {
            Option::None
        },
        Option::Some((a, s, k)) => {
            let ghost x = (a@, s as int, k as int);
            if k < c.len() && tok_is_punct(&c[k], ',') {
                match tuple_fields_exec(c, k + 1) {
                    Option::Some(rest) => {
                        let mut out: Vec<(Collected, usize, usize)> = Vec::new();
                        out.push((a, s, k));
                        let mut rest = rest;
                        let ghost rv = rest@;
                        out.append(&mut rest);
                        assert(raws_view(out@) =~= seq![x] + raws_view(rv));
                        assert(forall|m: int| 0 <= m < out@.len() ==> (#[trigger] out@[m]).1 <= out@[m].2 <= c@.len()) by {
                            assert forall|m: int| 0 <= m < out@.len() implies (#[trigger] out@[m]).1 <= out@[m].2 <= c@.len() by {
                                if m > 0 {
                                    assert(out@[m] == rv[m - 1]);
                                }
                            }
                        }
                        Option::Some(out)
                    },
                    Option::None => Option::None,
                }
            } else if k == c.len() {
                let mut out: Vec<(Collected, usize, usize)> = Vec::new();
                out.push((a, s, k));
                assert(raws_view(out@) =~= seq![x]);
                Option::Some(out)
            } else {
                Option::None
            }
        },
    }
}

fn default_tuple_attrs_exec() -> (r: FieldAttrs)
    ensures
        r@ == default_tuple_attrs(),
{
    let r = FieldAttrs {
        short: Option::None,
        long: Option::None,
        env: Option::None,
        help: Option::None,
        fallback: Option::None,
        consumer: Option::Some(ConsumerType::Positional { metavar: Option::Some(copy_text("ARG")) }),
        postpr: Vec::new(),
        ignore_rustdoc: false,
    };
    assert(r@.postpr =~= Seq::<Post<Seq<char>>>::empty());
    r
}

fn field_name_of(idx: usize) -> (r: String)
    ensures
        r@ == "field_"@ + decimal(idx as nat),
{
    let mut r = copy_text("field_");
    let d = decimal_exec(idx);
    push_text(&mut r, d.as_str());
    r
}

/// Converts the parsed tuple fields from position `pos`, numbered from `idx`.
fn convert_tuple_fields(c: &Vec<Tok>, raws: &Vec<(Collected, usize, usize)>, pos: usize, idx: usize) -> (r: Result<Option<Vec<StructField>>, DeriveError>)
    requires
        pos <= raws@.len(),
        idx as int + (raws@.len() - pos) <= usize::MAX,
        forall|m: int| 0 <= m < raws@.len() ==> (#[trigger] raws@[m]).1 <= raws@[m].2 <= c@.len(),
    ensures
        match r {
            Result::Ok(Option::Some(fs)) => convert_tuple(c@, raws_view(raws@).subrange(pos as int, raws@.len() as int), idx as nat)
                == Result::<Option<Seq<StructFieldSpec>>, DeriveError>::Ok(Option::Some(fields_view(fs@))),
            Result::Ok(Option::None) => convert_tuple(c@, raws_view(raws@).subrange(pos as int, raws@.len() as int), idx as nat)
                == Result::<Option<Seq<StructFieldSpec>>, DeriveError>::Ok(Option::None),
            Result::Err(e) => convert_tuple(c@, raws_view(raws@).subrange(pos as int, raws@.len() as int), idx as nat)
                == Result::<Option<Seq<StructFieldSpec>>, DeriveError>::Err(e),
        },
    decreases raws@.len() - pos,
{
    let ghost rs = raws_view(raws@).subrange(pos as int, raws@.len() as int);
    if pos == raws.len() {
        let e: Vec<StructField> = Vec::new();
        assert(fields_view(e@) =~= Seq::empty());
        return Result::Ok(Option::Some(e));
    }
    assert(rs[0] == (raws@[pos as int].0@, raws@[pos as int].1 as int, raws@[pos as int].2 as int));
    assert(rs.drop_first() =~= raws_view(raws@).subrange(pos + 1, raws@.len() as int));
    let a = &raws[pos].0;
    let s = raws[pos].1;
    let k = raws[pos].2;
    let name = field_name_of(idx);
    let sh = match crate::grammar::type_shape_exec(c, s, k) {
        Option::Some(sh) => sh,
        Option::None => return Result::Ok(Option::None),
    };
    let attrs = if a.bpaf.len() == 0 && a.docs.len() == 0 {
        default_tuple_attrs_exec()
    } else {
        match FieldAttrs::parse_from_attrs(name.as_str(), &a.bpaf, &a.docs) {
            Result::Ok(fa) => fa,
            Result::Err(e) => return Result::Err(e),
        }
    };
    let ty = crate::tokens::range_text(c, s, k);
    let field = StructField { name, ty, shape: sh, attrs };
    let ghost fieldv = field@;
    match convert_tuple_fields(c, raws, pos + 1, idx + 1) {
        Result::Ok(Option::Some(rest)) => {
            let mut out: Vec<StructField> = Vec::new();
            out.push(field);
            let mut rest = rest;
            let ghost rv = rest@;
            out.append(&mut rest);
            assert(fields_view(out@) =~= seq![fieldv] + fields_view(rv));
            Result::Ok(Option::Some(out))
        },
        Result::Ok(Option::None) => Result::Ok(Option::None),
        Result::Err(e) => Result::Err(e),
    }
}

/// A variant before its annotations are read.
pub struct RawVariant {
    pub attrs: Collected,
    pub name: String,
    pub fields: Vec<StructField>,
    pub is_tuple: bool,
    pub next: usize,
}

impl View for RawVariant {
    type V = RawVariantSpec;

    open spec fn view(&self) -> RawVariantSpec {
        RawVariantSpec {
            attrs: self.attrs@,
            name: self.name@,
            fields: fields_view(self.fields@),
            is_tuple: self.is_tuple,
            next: self.next as int,
        }
    }
}

fn group_of(t: &Tok) -> (r: (u8, Option<&Vec<Tok>>))
    ensures
        r.0 == 1 <==> is_paren(*t),
        r.0 == 2 <==> is_brace(*t),
        r.1 is Some <==> (is_paren(*t) || is_brace(*t)),
        r.1 matches Option::Some(g) ==> g@ == inner(*t),
{
    match t {
        Tok::Group(Delim::Paren, g) => (1, Option::Some(g)),
        Tok::Group(Delim::Brace, g) => (2, Option::Some(g)),
        _ => (0, Option::None),
    }
}

#[verifier::spinoff_prover]
fn variant_at_exec(c: &Vec<Tok>, i: usize) -> (r: Result<Option<RawVariant>, DeriveError>)
    requires
        i <= c@.len(),
    ensures
        match r {
            Result::Ok(Option::Some(v)) => variant_at(c@, i as int) == Result::<Option<RawVariantSpec>, DeriveError>::Ok(Option::Some(v@)),
            Result::Ok(Option::None) => variant_at(c@, i as int) == Result::<Option<RawVariantSpec>, DeriveError>::Ok(Option::None),
            Result::Err(e) => variant_at(c@, i as int) == Result::<Option<RawVariantSpec>, DeriveError>::Err(e),
        },
        r matches Result::Ok(Option::Some(v)) ==> i < v.next <= c@.len(),
{
    let a = attrs_from_exec(c, i);
    let j = a.end;
    if j >= c.len() {
        return Result::Ok(Option::None);
    }
    let name = match &c[j] {
        Tok::Ident(n) => copy_text(n.as_str()),
        _ => return Result::Ok(Option::None),
    };
    if j + 1 < c.len() {
        let (kind, g) = group_of(&c[j + 1]);
        if let Option::Some(g) = g {
            if kind == 1 {
                if let Option::Some(raws) = tuple_fields_exec(g, 0) {
                    assert(raws_view(raws@).subrange(0, raws@.len() as int) =~= raws_view(raws@));
                    let n: usize = raws.len();
                    assert(0 + (n - 0) <= usize::MAX);
                    return match convert_tuple_fields(g, &raws, 0, 0) {
                        Result::Ok(Option::Some(fields)) => Result::Ok(Option::Some(
                            RawVariant { attrs: a, name, fields, is_tuple: true, next: j + 2 },
                        )),
                        Result::Ok(Option::None) => Result::Ok(Option::None),
                        Result::Err(e) => Result::Err(e),
                    };
                }
            } else {
                return match parse_fields(g, 0) {
                    Result::Ok(fields) => Result::Ok(Option::Some(
                        RawVariant { attrs: a, name, fields, is_tuple: false, next: j + 2 },
                    )),
                    Result::Err(e) => Result::Err(e),
                };
            }
        }
    }
    let r = RawVariant { attrs: a, name, fields: Vec::new(), is_tuple: false, next: j + 1 };
    assert(r@.fields =~= Seq::<StructFieldSpec>::empty());
    Result::Ok(Option::Some(r))
}

/// Parse enum variants from the content of a brace group, from `i`. Validation errors
/// of the variants' annotations and of their fields' annotations are passed on, not
/// swallowed.
pub fn parse_enum_variants(c: &Vec<Tok>, i: usize) -> (r: Result<Vec<EnumBranch>, DeriveError>)
    requires
        i <= c@.len(),
    ensures
        match r {
            Result::Ok(vs) => variants_from(c@, i as int) == Result::<Seq<EnumBranchSpec>, DeriveError>::Ok(branches_view(vs@)),
            Result::Err(e) => variants_from(c@, i as int) == Result::<Seq<EnumBranchSpec>, DeriveError>::Err(e),
        },
    decreases c@.len() - i,
{
    match variant_at_exec(c, i) {
        Result::Err(e) => Result::Err(e),
        Result::Ok(Option::None) => {
            let e: Vec<EnumBranch> = Vec::new();
            assert(branches_view(e@) =~= Seq::empty());
            Result::Ok(e)
        },
        Result::Ok(Option::Some(v)) => {
            let ghost vv = v@;
            let ed = match parse_variant_attrs(&v.attrs.bpaf) {
                Result::Ok(ed) => ed,
                Result::Err(e) => return Result::Err(e),
            };
            let ghost edv = ed@;
            let next = if v.next < c.len() && tok_is_punct(&c[v.next], ',') {
                v.next + 1
            } else {
                v.next
            };
            let docs = extract_doc_comments(&v.attrs.docs);
            let b = EnumBranch {
                name: v.name,
                fields: v.fields,
                doc_comments: docs,
                is_command: ed.is_command,
                command_name: ed.command_name,
                skip: ed.skip,
                hide: ed.hide,
                fallback_to_usage: ed.fallback_to_usage,
                is_tuple: v.is_tuple,
                long_aliases: ed.long_aliases,
                short_aliases: ed.short_aliases,
                help: ed.help,
            };
            let ghost bv = b@;
            assert(bv == branch_of(vv, edv));
            match parse_enum_variants(c, next) {
                Result::Ok(rest) => {
                    let mut out: Vec<EnumBranch> = Vec::new();
                    out.push(b);
                    let mut rest = rest;
                    let ghost rv = rest@;
                    out.append(&mut rest);
                    assert(branches_view(out@) =~= seq![bv] + branches_view(rv));
                    Result::Ok(out)
                },
                Result::Err(e) => Result::Err(e),
            }
        },
    }
}

fn body_pos_exec(s: &Vec<Tok>, i: usize) -> (r: Option<usize>)
    requires
        i <= s@.len(),
    ensures
        match r {
            Option::Some(m) => body_pos(s@, i as int) == Option::Some(m as int),
            Option::None => body_pos(s@, i as int) is None,
        },
        r matches Option::Some(m) ==> i <= m < s@.len(),
    decreases s@.len() - i,
{
    if i >= s.len() {
        Option::None
    } else if group_of(&s[i]).0 == 2 || tok_is_punct(&s[i], ';') {
        Option::Some(i)
    } else {
        body_pos_exec(s, i + 1)
    }
}

impl Top {
    /// Reads the token trees of a struct or enum definition with its attributes.
    pub fn parse(s: &Vec<Tok>) -> (r: Result<Top, DeriveError>)
        ensures
            match r {
                Result::Ok(t) => top_of(s@) == Result::<TopSpec, DeriveError>::Ok(t@),
                Result::Err(e) => top_of(s@) == Result::<TopSpec, DeriveError>::Err(e),
            },
    {
        let a = attrs_from_exec(s, 0);
        let info = match top_info(&a.bpaf) {
            Result::Ok(info) => info,
            Result::Err(e) => return Result::Err(e),
        };
        let ghost infov = info@;
        let mut mode = info.mode;
        if !info.ignore_rustdoc && a.docs.len() > 0 {
            apply_top_docs(&mut mode, &a.docs);
        }
        let k = vis_end_exec(s, a.end);
        if k >= s.len() {
            return Result::Err(DeriveError::NotStructOrEnum);
        }
        let is_struct = tok_is_kw(&s[k], "struct");
        let is_enum = tok_is_kw(&s[k], "enum");
        if !is_struct && !is_enum {
            return Result::Err(DeriveError::NotStructOrEnum);
        }
        if k + 1 >= s.len() {
            return Result::Err(DeriveError::MissingName);
        }
        let name = match &s[k + 1] {
            Tok::Ident(n) => copy_text(n.as_str()),
            _ => return Result::Err(DeriveError::MissingName),
        };
        let m = match body_pos_exec(s, k + 2) {
            Option::Some(m) => m,
            Option::None => return Result::Err(DeriveError::MissingBody),
        };
        let (kind, g) = group_of(&s[m]);
        let body = match g {
            Option::Some(g) if kind == 2 => {
                if is_enum {
                    let vs = match parse_enum_variants(g, 0) {
                        Result::Ok(vs) => vs,
                        Result::Err(e) => return Result::Err(e),
                    };
                    if vs.len() == 0 {
                        return Result::Err(DeriveError::EmptyEnum);
                    }
                    Body::Enum(vs)
                } else {
                    match parse_fields(g, 0) {
                        Result::Ok(fs) => Body::Struct(fs),
                        Result::Err(e) => return Result::Err(e),
                    }
                }
            },
            _ => {
                let e: Vec<StructField> = Vec::new();
                assert(fields_view(e@) =~= Seq::<StructFieldSpec>::empty());
                Body::Struct(e)
            },
        };
        let t = Top {
            name,
            body,
            adjacent: info.adjacent,
            mode,
            fallback: info.fallback,
            bpaf_path: info.bpaf_path,
            custom_name: info.custom_name,
            private: info.private,
            boxed: info.boxed,
            attrs: info.attrs,
        };
        Result::Ok(t)
    }
}


/// Whether `part` stands somewhere in `whole`, all of it in one piece.
pub open spec fn occurs_in(part: Seq<char>, whole: Seq<char>) -> bool {
    exists|off: int| 0 <= off && off + part.len() <= whole.len() && #[trigger] whole.subrange(off, off + part.len()) == part
}

proof fn lemma_join_part(parts: Seq<Seq<char>>, sep: Seq<char>, k: int) -> (off: int)
    requires
        0 <= k < parts.len(),
    ensures
        0 <= off,
        off + parts[k].len() <= join(parts, sep).len(),
        join(parts, sep).subrange(off, off + parts[k].len()) == parts[k],
    decreases parts.len(),
{
    if parts.len() == 1 {
        assert(join(parts, sep).subrange(0, parts[k].len() as int) =~= parts[k]);
        0
    } else if k == parts.len() - 1 {
        let j = join(parts.drop_last(), sep);
        let off: int = (j.len() + sep.len()) as int;
        assert(join(parts, sep).subrange(off, off + parts[k].len()) =~= parts[k]);
        off
    } else {
        let off = lemma_join_part(parts.drop_last(), sep, k);
        let j = join(parts.drop_last(), sep);
        assert(join(parts, sep).subrange(off, off + parts[k].len()) =~= j.subrange(off, off + parts[k].len()));
        off
    }
}

/// No paragraph of the doc comments is lost: the first is the description, the second
/// (when not empty) the header, and every later one appears whole in the footer, each
/// after the ones before it, the last one following a new line.
pub proof fn doc_paragraphs_keep_every_paragraph(docs: Seq<Seq<char>>)
    ensures
        doc_paragraph_list(docs).len() > 0 ==> doc_paragraphs(docs).0 == Option::Some(doc_paragraph_list(docs)[0]),
        doc_paragraph_list(docs).len() > 1 && doc_paragraph_list(docs)[1].len() > 0 ==> doc_paragraphs(docs).1
            == Option::Some(doc_paragraph_list(docs)[1]),
        doc_paragraph_list(docs).len() > 2 ==> doc_paragraphs(docs).2 is Some,
        forall|k: int|
            2 <= k < doc_paragraph_list(docs).len() ==> #[trigger] occurs_in(
                doc_paragraph_list(docs)[k],
                doc_paragraphs(docs).2->0,
            ),
        doc_paragraph_list(docs).len() > 3 ==> doc_paragraphs(docs).2->0 == join(
            doc_paragraph_list(docs).subrange(2, doc_paragraph_list(docs).len() - 1),
            "\n"@,
        ) + "\n"@ + doc_paragraph_list(docs).last(),
{
    let ps = doc_paragraph_list(docs);
    let (d, h, f) = doc_paragraphs(docs);
    let sub = ps.subrange(2, ps.len() as int);
    assert forall|k: int| 2 <= k < ps.len() implies #[trigger] occurs_in(ps[k], doc_paragraphs(docs).2->0) by {
        let off = lemma_join_part(sub, "\n"@, k - 2);
        assert(sub[k - 2] == ps[k]);
        assert(doc_paragraphs(docs).2->0 == join(sub, "\n"@));
        assert(doc_paragraphs(docs).2->0.subrange(off, off + ps[k].len()) == ps[k]);
    }
    if ps.len() > 3 {
        let sub = ps.subrange(2, ps.len() as int);
        assert(sub.drop_last() =~= ps.subrange(2, ps.len() - 1));
        assert(sub.last() == ps.last());
        assert(f->0 == join(sub, "\n"@));
        assert(join(sub, "\n"@) == join(sub.drop_last(), "\n"@) + "\n"@ + sub.last());
    }
}


/// Each switch of the item's own `#[bpaf(...)]` (`boxed`, `private`, `adjacent`,
/// `ignore_rustdoc`) turns on its own setting, and `fallback(e)` and `path(p)` store
/// their argument in their own setting; nothing else of what was read changes.
pub proof fn item_keyword_sets_its_own_setting(st: StructAttrStateSpec, w: Seq<char>, k: Kw, p: Payload<Seq<char>>)
    requires
        crate::grammar::kw_of(w) == Option::Some(k),
    ensures
        ({
            let r = struct_item_effect(st, Inner { kw: Option::Some(k), payload: p });
            &&& k == Kw::Boxed ==> r == Result::<StructAttrStateSpec, DeriveError>::Ok(
                StructAttrStateSpec { boxed: true, ..st },
            )
            &&& k == Kw::Private ==> r == Result::<StructAttrStateSpec, DeriveError>::Ok(
                StructAttrStateSpec { private: true, ..st },
            )
            &&& k == Kw::Adjacent ==> r == Result::<StructAttrStateSpec, DeriveError>::Ok(
                StructAttrStateSpec { adjacent: true, ..st },
            )
            &&& k == Kw::IgnoreRustdoc ==> r == Result::<StructAttrStateSpec, DeriveError>::Ok(
                StructAttrStateSpec { ignore_rustdoc: true, ..st },
            )
            &&& k == Kw::Fallback ==> r == Result::<StructAttrStateSpec, DeriveError>::Ok(
                StructAttrStateSpec { fallback: Option::Some(payload_text(p)), ..st },
            )
            &&& k == Kw::Path ==> r == Result::<StructAttrStateSpec, DeriveError>::Ok(
                StructAttrStateSpec { bpaf_path: Option::Some(payload_text(p)), ..st },
            )
        }),
{
}

} // verus!
