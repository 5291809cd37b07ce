//! The code of the parser function: a chain of bpaf builder calls, written as Rust text.
use crate::attrs::{join, join_exec, ov, posts_view, ConsumerType, Post, PostDecor, PostParse};
use crate::case::{custom_case, lowercase, to_kebab_case, to_lowercase, to_snake_case};
use crate::grammar::{texts_view, TypeShape};
use crate::literal::{char_literal, quote_char, quote_str, string_literal};
use crate::mode::{CommandCfg, CommandCfgSpec, Mode, ModeSpec, OptionsCfg, ParserCfg};
use crate::tokens::{copy_text, push_text, Tok};
use crate::error::{error_message, DeriveError};
use crate::attrs::{empty_field_attrs, field_attrs_of, positional_with_name, FieldAttrsSpec};
use crate::top::{
    decimal, decimal_exec, fields_view, branches_view, BodySpec, Body, EnumBranch, EnumBranchSpec, StructField,
    StructFieldSpec, Top, TopSpec, top_of, fields_from, named_field_at, convert_tuple, variant_at,
    variants_from, default_tuple_attrs, top_with,
};
use crate::grammar::{kw_of, CollectedSpec, Inner, Kw, Payload};
use crate::attrs::{apply_field_item, payload_text};
use crate::top::{struct_item_effect, StructAttrStateSpec};
use crate::mode::default_options;
use vstd::prelude::*;

verus! {

/// `parser` with a type-changing post-processing call appended.
pub open spec fn post_parse_code(parser: Seq<char>, pp: PostParse<Seq<char>>) -> Seq<char> {
    match pp {
        PostParse::MapFn { f } => parser + ".map("@ + f + ")"@,
        PostParse::Parse { f } => parser + ".parse("@ + f + ")"@,
        PostParse::Optional => parser + ".optional()"@,
        PostParse::Many => parser + ".many()"@,
        PostParse::SomeMsg { msg } => parser + ".some("@ + msg + ")"@,
        PostParse::Catch => parser + ".catch()"@,
        PostParse::Collect => parser + ".collect()"@,
        PostParse::Count => parser + ".count()"@,
        PostParse::Anywhere => parser + ".anywhere()"@,
        PostParse::Adjacent => parser + ".adjacent()"@,
        PostParse::Strict => parser + ".strict()"@,
        PostParse::NonStrict => parser + ".non_strict()"@,
    }
}

/// `parser` with a decorating call appended.
pub open spec fn post_decor_code(parser: Seq<char>, pd: PostDecor<Seq<char>>) -> Seq<char> {
    match pd {
        PostDecor::Guard { check, msg } => parser + ".guard("@ + check + ", "@ + msg + ")"@,
        PostDecor::Hide => parser + ".hide()"@,
        PostDecor::HideUsage => parser + ".hide_usage()"@,
        PostDecor::CustomUsage { usage } => parser + ".custom_usage("@ + usage + ")"@,
        PostDecor::FallbackWith { f } => parser + ".fallback_with("@ + f + ")"@,
        PostDecor::GroupHelp { doc } => parser + ".group_help("@ + doc + ")"@,
        PostDecor::DebugFallback => parser + ".debug_fallback()"@,
        PostDecor::DisplayFallback => parser + ".display_fallback()"@,
        PostDecor::FormatFallback { formatter } => parser + ".format_fallback("@ + formatter + ")"@,
        PostDecor::Last => parser + ".last()"@,
        PostDecor::Complete { f } => parser + ".complete("@ + f + ")"@,
        PostDecor::CompleteGroup { group } => parser + ".group("@ + string_literal(group) + ")"@,
        PostDecor::CompleteShell { f } => parser + ".complete_shell("@ + f + ")"@,
    }
}

/// `parser` with a post-processing attribute applied.
pub open spec fn post_code(parser: Seq<char>, p: Post<Seq<char>>) -> Seq<char> {
    match p {
        Post::Parse(pp) => post_parse_code(parser, pp),
        Post::Decor(pd) => post_decor_code(parser, pd),
    }
}

/// `parser` with the attributes applied in order.
pub open spec fn posts_code(parser: Seq<char>, ps: Seq<Post<Seq<char>>>) -> Seq<char>
    decreases ps.len(),
{
    if ps.len() == 0 {
        parser
    } else {
        posts_code(post_code(parser, ps[0]), ps.drop_first())
    }
}

/// `.name(arg)` when `o` holds `arg`.
pub open spec fn opt_call(parser: Seq<char>, name: Seq<char>, o: Option<Seq<char>>) -> Seq<char> {
    match o {
        Option::Some(a) => parser + "."@ + name + "("@ + a + ")"@,
        Option::None => parser,
    }
}

/// The options configuration applied to an options parser.
pub open spec fn options_code(parser: Seq<char>, cfg: crate::mode::OptionsCfg<Seq<char>>) -> Seq<char> {
    let p1 = opt_call(parser, "descr"@, cfg.descr);
    let p2 = opt_call(p1, "footer"@, cfg.footer);
    let p3 = opt_call(p2, "header"@, cfg.header);
    let p4 = opt_call(p3, "usage"@, cfg.usage);
    let p5 = opt_call(p4, "version"@, cfg.version);
    let p6 = opt_call(p5, "max_width"@, cfg.max_width);
    if cfg.fallback_usage {
        p6 + ".fallback_to_usage()"@
    } else {
        p6
    }
}

/// `.long("alias")` for each alias.
pub open spec fn longs_code(parser: Seq<char>, ls: Seq<Seq<char>>) -> Seq<char>
    decreases ls.len(),
{
    if ls.len() == 0 {
        parser
    } else {
        longs_code(parser + ".long("@ + string_literal(ls[0]) + ")"@, ls.drop_first())
    }
}

/// `.short('c')` for each alias.
pub open spec fn shorts_code(parser: Seq<char>, cs: Seq<char>) -> Seq<char>
    decreases cs.len(),
{
    if cs.len() == 0 {
        parser
    } else {
        shorts_code(parser + ".short("@ + char_literal(cs[0]) + ")"@, cs.drop_first())
    }
}

/// The value of an optional consumer.
pub open spec fn consumer_view(c: Option<ConsumerType>) -> Option<ConsumerType<Seq<char>>> {
    match c {
        Option::Some(x) => Option::Some(x@),
        Option::None => Option::None,
    }
}

/// The path of the bpaf crate in the generated code.
pub open spec fn bpaf_of(t: TopSpec) -> Seq<char> {
    match t.bpaf_path {
        Option::Some(p) => p,
        Option::None => "::bpaf"@,
    }
}

/// The type a field's values are parsed as: the element type of `Option`/`Vec`, the
/// type itself for any other type, and the written type for `bool` and `()`.
pub open spec fn parser_type(f: StructFieldSpec) -> Seq<char> {
    match f.shape {
        TypeShape::Optional(t) => t,
        TypeShape::Multiple(t) => t,
        TypeShape::Direct(t) => t,
        _ => f.ty,
    }
}

/// `any` and `positional` stand on their own when no name is given.
pub open spec fn is_standalone(c: Option<ConsumerType<Seq<char>>>) -> bool {
    match c {
        Option::Some(ConsumerType::Any { .. }) => true,
        Option::Some(ConsumerType::Positional { .. }) => true,
        _ => false,
    }
}

/// The named start of a field's parser (`short`/`long`/`env`), if it has one.
pub open spec fn base_parser(b: Seq<char>, f: StructFieldSpec) -> Option<Seq<char>> {
    let a = f.attrs;
    let named: Option<Seq<char>> = match a.short {
        Option::Some(c) => match a.long {
            Option::Some(l) => Option::Some(
                b + "::short("@ + char_literal(c) + ").long("@ + string_literal(l) + ")"@,
            ),
            Option::None => Option::Some(b + "::short("@ + char_literal(c) + ")"@),
        },
        Option::None => match a.long {
            Option::Some(l) => Option::Some(b + "::long("@ + string_literal(l) + ")"@),
            Option::None => if a.env is None && !is_standalone(a.consumer) {
                Option::Some(b + "::long("@ + string_literal(custom_case(f.name, '-')) + ")"@)
            } else {
                Option::None
            },
        },
    };
    match a.env {
        Option::Some(e) => match named {
            Option::Some(n) => Option::Some(n + ".env("@ + e + ")"@),
            Option::None => Option::Some(b + "::env("@ + e + ")"@),
        },
        Option::None => named,
    }
}

/// A field can be written out unless it asks for a positional consumer together with
/// a name (`short`, `long` or `env`).
pub open spec fn field_emittable(f: StructFieldSpec) -> bool {
    match f.attrs.consumer {
        Option::Some(ConsumerType::Positional { .. }) => f.attrs.short is None && f.attrs.long is None
            && f.attrs.env is None,
        _ => true,
    }
}

/// `.argument::<ty>("metavar")` after the named start.
pub open spec fn argument_code(bp: Seq<char>, ty: Seq<char>, metavar: Seq<char>) -> Seq<char> {
    bp + ".argument::<"@ + ty + ">("@ + string_literal(metavar) + ")"@
}

/// The parser a named field's consumer (or, without one, its type) makes.
pub open spec fn named_consumer_code(b: Seq<char>, f: StructFieldSpec, bp: Seq<char>) -> Seq<char> {
    match f.attrs.consumer {
        Option::Some(ConsumerType::Switch) => bp + ".switch()"@,
        Option::Some(ConsumerType::Argument { metavar }) => argument_code(
            bp,
            parser_type(f),
            match metavar {
                Option::Some(m) => m,
                Option::None => f.name,
            },
        ),
        Option::Some(ConsumerType::Positional { .. }) => bp,
        Option::Some(ConsumerType::Flag { present, absent }) => bp + ".flag("@ + present + ", "@ + absent
            + ")"@,
        Option::Some(ConsumerType::ReqFlag { present }) => bp + ".req_flag("@ + present + ")"@,
        Option::Some(ConsumerType::Any { metavar, check, .. }) => argument_code(bp, "String"@, metavar)
            + ".parse(|s: String| { ("@ + check + ")(s).ok_or(\"validation failed\") })"@,
        Option::Some(ConsumerType::External { ident }) => match ident {
            Option::Some(path) => path + "()"@,
            Option::None => f.name + "()"@,
        },
        Option::Some(ConsumerType::Pure { expr }) => b + "::pure("@ + expr + ")"@,
        Option::Some(ConsumerType::PureWith { expr }) => b + "::pure_with("@ + expr + ")"@,
        Option::None => match f.shape {
            TypeShape::Bool => bp + ".switch()"@,
            TypeShape::Direct(t) => argument_code(bp, t, f.name),
            TypeShape::Optional(t) => argument_code(bp, t, f.name),
            TypeShape::Multiple(t) => argument_code(bp, t, f.name),
            TypeShape::Unit => b + "::pure(())"@,
        },
    }
}

/// The parser a field's consumer makes, before help, fallback and post-processing.
pub open spec fn consumer_code(b: Seq<char>, f: StructFieldSpec) -> Seq<char> {
    match base_parser(b, f) {
        Option::Some(bp) => named_consumer_code(b, f, bp),
        Option::None => match f.attrs.consumer {
            Option::Some(ConsumerType::Positional { metavar }) => b + "::positional::<"@ + parser_type(f)
                + ">("@ + string_literal(
                match metavar {
                    Option::Some(m) => m,
                    Option::None => "ARG"@,
                },
            ) + ")"@,
            Option::Some(ConsumerType::Any { metavar, ty, check }) => match ty {
                Option::Some(t) => b + "::any::<"@ + t + ", _, _>("@ + string_literal(metavar) + ", "@
                    + check + ")"@,
                Option::None => b + "::any("@ + string_literal(metavar) + ", "@ + check + ")"@,
            },
            _ => Seq::empty(),
        },
    }
}

/// External, pure and pure_with parsers take no help.
pub open spec fn help_supported(c: Option<ConsumerType<Seq<char>>>) -> bool {
    match c {
        Option::Some(ConsumerType::External { .. }) => false,
        Option::Some(ConsumerType::Pure { .. }) => false,
        Option::Some(ConsumerType::PureWith { .. }) => false,
        _ => true,
    }
}

pub open spec fn is_pure(c: Option<ConsumerType<Seq<char>>>) -> bool {
    match c {
        Option::Some(ConsumerType::Pure { .. }) => true,
        Option::Some(ConsumerType::PureWith { .. }) => true,
        _ => false,
    }
}

/// Some attribute changes the parser's result type.
pub open spec fn has_post_parse(ps: Seq<Post<Seq<char>>>) -> bool {
    exists|i: int| 0 <= i < ps.len() && ps[i] is Parse
}

/// The post-processing a field gets: its own attributes, led by an implicit
/// `.optional()` for `Option` and `.many()` for `Vec` fields, unless the field states
/// a type-changing attribute itself or is pure.
pub open spec fn effective_posts(f: StructFieldSpec) -> Seq<Post<Seq<char>>> {
    let ps = f.attrs.postpr;
    if !has_post_parse(ps) && !is_pure(f.attrs.consumer) {
        match f.shape {
            TypeShape::Optional(_) => seq![Post::Parse(PostParse::Optional)] + ps,
            TypeShape::Multiple(_) => seq![Post::Parse(PostParse::Many)] + ps,
            _ => ps,
        }
    } else {
        ps
    }
}

/// The complete parser expression for one field.
pub open spec fn field_code(b: Seq<char>, f: StructFieldSpec) -> Seq<char> {
    let p0 = consumer_code(b, f);
    let p1 = match f.attrs.help {
        Option::Some(h) => if help_supported(f.attrs.consumer) {
            p0 + ".help("@ + string_literal(h) + ")"@
        } else {
            p0
        },
        Option::None => p0,
    };
    let p2 = match f.attrs.fallback {
        Option::Some(e) => p1 + ".fallback("@ + e + ")"@,
        Option::None => p1,
    };
    posts_code(p2, effective_posts(f))
}

/// `let name = parser; ` for each field.
pub open spec fn field_lets(b: Seq<char>, fs: Seq<StructFieldSpec>) -> Seq<char>
    decreases fs.len(),
{
    if fs.len() == 0 {
        Seq::empty()
    } else {
        "let "@ + fs[0].name + " = "@ + field_code(b, fs[0]) + "; "@ + field_lets(b, fs.drop_first())
    }
}

pub open spec fn field_names(fs: Seq<StructFieldSpec>) -> Seq<Seq<char>> {
    fs.map_values(|f: StructFieldSpec| f.name)
}

/// A block that binds each field's parser and combines them into `target`, where
/// `open` and `close` surround the field names.
pub open spec fn construct_code(
    b: Seq<char>,
    fs: Seq<StructFieldSpec>,
    target: Seq<char>,
    open: Seq<char>,
    close: Seq<char>,
) -> Seq<char> {
    "{ "@ + field_lets(b, fs) + b + "::construct!("@ + target + open + join(field_names(fs), ", "@)
        + close + ") }"@
}

/// The struct's parser: `pure` of the empty struct, or its fields combined.
pub open spec fn struct_code(t: TopSpec, fs: Seq<StructFieldSpec>) -> Seq<char> {
    let b = bpaf_of(t);
    if fs.len() == 0 {
        b + "::pure("@ + t.name + " {})"@
    } else {
        let c = construct_code(b, fs, t.name, " { "@, " }"@);
        if t.adjacent {
            c + ".adjacent()"@
        } else {
            c
        }
    }
}

/// Some variant is a command.
pub open spec fn has_commands(vs: Seq<EnumBranchSpec>) -> bool {
    exists|i: int| 0 <= i < vs.len() && vs[i].is_command
}

/// A variant's help: its `help(..)`, else its doc comments joined by new lines.
pub open spec fn variant_help(v: EnumBranchSpec) -> Option<Seq<char>> {
    match v.help {
        Option::Some(h) => Option::Some(h),
        Option::None => if v.doc_comments.len() > 0 {
            Option::Some(join(v.doc_comments, "\n"@))
        } else {
            Option::None
        },
    }
}

/// The command name of a variant: given, or the variant's name in kebab case.
pub open spec fn variant_command_name(v: EnumBranchSpec) -> Seq<char> {
    match v.command_name {
        Option::Some(n) => n,
        Option::None => custom_case(v.name, '-'),
    }
}

/// The calls that make a variant's parser a command.
pub open spec fn command_modifiers(
    base: Seq<char>,
    help: Option<Seq<char>>,
    v: EnumBranchSpec,
    name: Seq<char>,
) -> Seq<char> {
    let p1 = match help {
        Option::Some(h) => base + ".descr("@ + string_literal(h) + ")"@,
        Option::None => base,
    };
    let p2 = if v.fallback_to_usage {
        p1 + ".fallback_to_usage()"@
    } else {
        p1
    };
    let p3 = p2 + ".command("@ + string_literal(name) + ")"@;
    let p4 = shorts_code(longs_code(p3, v.long_aliases), v.short_aliases);
    if v.hide {
        p4 + ".hide()"@
    } else {
        p4
    }
}

/// The parser of a variant with fields.
pub open spec fn variant_construct(t: TopSpec, v: EnumBranchSpec) -> Seq<char> {
    let target = t.name + "::"@ + v.name;
    if v.is_tuple {
        construct_code(bpaf_of(t), v.fields, target, "("@, ")"@)
    } else {
        construct_code(bpaf_of(t), v.fields, target, " { "@, " }"@)
    }
}

/// The message for a variant with fields, but no command, in an enum with commands.
pub open spec fn mixed_variant_message(name: Seq<char>) -> Seq<char> {
    "Variant '"@ + name
        + "' has fields but no #[bpaf(command)] attribute. In enums with command variants, non-command variants must be unit variants."@
}

/// The parser of one variant that is not skipped.
pub open spec fn variant_code(t: TopSpec, has_cmd: bool, v: EnumBranchSpec) -> Seq<char> {
    let b = bpaf_of(t);
    let help = variant_help(v);
    if has_cmd && v.is_command {
        let base = if v.fields.len() == 0 {
            b + "::pure("@ + t.name + "::"@ + v.name + ").to_options()"@
        } else {
            variant_construct(t, v) + ".to_options()"@
        };
        command_modifiers(base, help, v, variant_command_name(v))
    } else if has_cmd && v.fields.len() > 0 {
        "compile_error!("@ + string_literal(mixed_variant_message(v.name)) + ")"@
    } else if v.fields.len() == 0 {
        let named = b + "::long("@ + string_literal(variant_command_name(v)) + ")"@;
        let with_help = match help {
            Option::Some(h) => named + ".help("@ + string_literal(h) + ")"@,
            Option::None => named,
        };
        with_help + ".req_flag("@ + t.name + "::"@ + v.name + ")"@
    } else {
        variant_construct(t, v)
    }
}

/// How many of the variants are not skipped.
pub open spec fn kept_count(vs: Seq<EnumBranchSpec>) -> nat
    decreases vs.len(),
{
    if vs.len() == 0 {
        0
    } else {
        kept_count(vs.drop_last()) + if vs.last().skip {
            0nat
        } else {
            1nat
        }
    }
}

/// `let variant_<k> = parser; ` for each variant that is not skipped, counting from `k`.
pub open spec fn variant_lets(t: TopSpec, has_cmd: bool, vs: Seq<EnumBranchSpec>, k: nat) -> Seq<char>
    decreases vs.len(),
{
    if vs.len() == 0 {
        Seq::empty()
    } else if vs[0].skip {
        variant_lets(t, has_cmd, vs.drop_first(), k)
    } else {
        "let variant_"@ + decimal(k) + " = "@ + variant_code(t, has_cmd, vs[0]) + "; "@
            + variant_lets(t, has_cmd, vs.drop_first(), k + 1)
    }
}

/// `variant_0`, `variant_1`, ... for `n` variants.
pub open spec fn variant_names(n: nat) -> Seq<Seq<char>> {
    Seq::new(n, |i: int| "variant_"@ + decimal(i as nat))
}

/// The enum's parser: the first variant parser that succeeds, of those not skipped.
pub open spec fn enum_code(t: TopSpec, vs: Seq<EnumBranchSpec>) -> Seq<char> {
    let b = bpaf_of(t);
    if kept_count(vs) == 0 {
        b + "::fail(\"No variants available\")"@
    } else {
        "{ "@ + variant_lets(t, has_commands(vs), vs, 0) + b + "::construct!(["@ + join(
            variant_names(kept_count(vs)),
            ", "@,
        ) + "]) }"@
    }
}

/// The parser of the struct or enum, before the top-level attributes.
pub open spec fn body_code(t: TopSpec) -> Seq<char> {
    match t.body {
        BodySpec::Struct(fs) => struct_code(t, fs),
        BodySpec::Enum(vs) => enum_code(t, vs),
    }
}

/// The parser with the top-level fallback and decorations.
pub open spec fn decorated_code(t: TopSpec) -> Seq<char> {
    let p = match t.fallback {
        Option::Some(e) => body_code(t) + ".fallback("@ + e + ")"@,
        Option::None => body_code(t),
    };
    posts_code(p, t.attrs)
}

/// The parser wrapped as the mode asks: options, command or plain parser.
pub open spec fn mode_code(t: TopSpec) -> Seq<char> {
    let b = bpaf_of(t);
    let p = decorated_code(t);
    match t.mode {
        ModeSpec::Options { options } => {
            let wrapped = match options.cargo_helper {
                Option::Some(h) => b + "::cargo_helper("@ + string_literal(h) + ", "@ + p + ")"@,
                Option::None => p,
            };
            options_code(wrapped + ".to_options()"@, options)
        },
        ModeSpec::Command { command, options } => {
            let name = match command.name {
                Option::Some(n) => n,
                Option::None => lowercase(t.name),
            };
            let p1 = options_code(p + ".to_options()"@, options) + ".command("@ + string_literal(name)
                + ")"@;
            let p2 = longs_code(shorts_code(p1, command.short), command.long);
            let p3 = match command.help {
                Option::Some(h) => p2 + ".help("@ + h + ")"@,
                Option::None => p2,
            };
            if t.boxed {
                p3 + ".boxed()"@
            } else {
                p3
            }
        },
        ModeSpec::Parser { parser } => {
            let p1 = match parser.group_help {
                Option::Some(g) => p + ".group_help("@ + g + ")"@,
                Option::None => p,
            };
            if t.boxed {
                p1 + ".boxed()"@
            } else {
                p1
            }
        },
    }
}

/// The return type of the parser function.
pub open spec fn return_type_of(t: TopSpec, self_ty: Seq<char>) -> Seq<char> {
    let b = bpaf_of(t);
    match t.mode {
        ModeSpec::Options { .. } => b + "::OptionParser<"@ + self_ty + ">"@,
        _ => if t.boxed {
            "Box<dyn "@ + b + "::Parser<"@ + self_ty + ">>"@
        } else {
            "impl "@ + b + "::Parser<"@ + self_ty + ">"@
        },
    }
}

/// The name of the parser function inside the impl: `parse` unless one was given.
pub open spec fn method_name(t: TopSpec) -> Seq<char> {
    match t.custom_name {
        Option::Some(n) => n,
        Option::None => "parse"@,
    }
}

/// `pub ` for a public parser, nothing for a private one.
pub open spec fn visibility(t: TopSpec) -> Seq<char> {
    if t.private {
        Seq::empty()
    } else {
        "pub "@
    }
}

/// The inherent impl of the annotated type with its parser function.
pub open spec fn impl_code(t: TopSpec) -> Seq<char> {
    "#[allow(unused_imports)] impl "@ + t.name + " { "@ + visibility(t) + "fn "@ + method_name(t) + "() -> "@
        + return_type_of(t, "Self"@) + " { use "@ + bpaf_of(t) + "::Parser as _; "@ + mode_code(t) + " } }"@
}

/// The free function named after the type in snake case, which hands out the same
/// parser as the impl's function.
pub open spec fn free_fn_code(t: TopSpec) -> Seq<char> {
    visibility(t) + "fn "@ + custom_case(t.name, '_') + "() -> "@ + return_type_of(t, t.name) + " { "@
        + t.name + "::"@ + method_name(t) + "() }"@
}

/// The whole generated item: the impl, then the free function.
pub open spec fn item_code(t: TopSpec) -> Seq<char> {
    impl_code(t) + " "@ + free_fn_code(t)
}

/// Every field that gets written out can be.
pub open spec fn top_emittable(t: TopSpec) -> bool {
    match t.body {
        BodySpec::Struct(fs) => fields_emittable(fs),
        BodySpec::Enum(vs) => variants_emittable(vs),
    }
}

/// A field without attributes is read by its name in kebab case as a long flag: a
/// `bool` as a switch, any other type as an argument named after the field, which is
/// optional for an `Option` and repeated for a `Vec`; a `()` field is always there.
pub proof fn plain_field_code(b: Seq<char>, f: StructFieldSpec)
    requires
        f.attrs == empty_field_attrs(),
    ensures
        ({
            let named = b + "::long("@ + string_literal(custom_case(f.name, '-')) + ")"@;
            field_code(b, f) == match f.shape {
                TypeShape::Bool => named + ".switch()"@,
                TypeShape::Unit => b + "::pure(())"@,
                TypeShape::Direct(t) => argument_code(named, t, f.name),
                TypeShape::Optional(t) => argument_code(named, t, f.name) + ".optional()"@,
                TypeShape::Multiple(t) => argument_code(named, t, f.name) + ".many()"@,
            }
        }),
{
    let ps = f.attrs.postpr;
    assert(ps =~= Seq::<Post<Seq<char>>>::empty());
    assert(!has_post_parse(ps));
    let p0 = consumer_code(b, f);
    match f.shape {
        TypeShape::Optional(_) => {
            lemma_posts_cons(p0, Post::Parse(PostParse::Optional), ps);
        },
        TypeShape::Multiple(_) => {
            lemma_posts_cons(p0, Post::Parse(PostParse::Many), ps);
        },
        _ => {},
    }
}

/// A field that states a type-changing attribute (such as `optional`, `many` or
/// `map`), or is pure, gets exactly its own post-processing: nothing is added for
/// `Option` or `Vec`.
pub proof fn explicit_post_parse_is_kept(f: StructFieldSpec)
    requires
        has_post_parse(f.attrs.postpr) || is_pure(f.attrs.consumer),
    ensures
        effective_posts(f) == f.attrs.postpr,
{
}

/// An enum whose variants are all skipped gives the parser that always fails.
pub proof fn all_skipped_fails(t: TopSpec, vs: Seq<EnumBranchSpec>)
    requires
        forall|i: int| 0 <= i < vs.len() ==> (#[trigger] vs[i]).skip,
    ensures
        enum_code(t, vs) == bpaf_of(t) + "::fail(\"No variants available\")"@,
{
    lemma_none_kept(vs);
}

proof fn lemma_none_kept(vs: Seq<EnumBranchSpec>)
    requires
        forall|i: int| 0 <= i < vs.len() ==> (#[trigger] vs[i]).skip,
    ensures
        kept_count(vs) == 0,
    decreases vs.len(),
{
    if vs.len() > 0 {
        let w = vs.drop_last();
        assert forall|i: int| 0 <= i < w.len() implies (#[trigger] w[i]).skip by {
            assert(w[i] == vs[i]);
        }
        lemma_none_kept(w);
        assert(vs.last().skip);
    }
}

proof fn lemma_attrs_emittable(
    name: Seq<char>,
    lists: Seq<Seq<Inner<Seq<char>>>>,
    docs: Seq<Seq<char>>,
    f: StructFieldSpec,
)
    requires
        field_attrs_of(name, lists, docs) == Result::<FieldAttrsSpec, DeriveError>::Ok(f.attrs),
    ensures
        field_emittable(f),
{
}

proof fn lemma_fields_from_emittable(c: Seq<Tok>, i: int)
    ensures
        fields_from(c, i) is Ok ==> fields_emittable(fields_from(c, i)->Ok_0),
    decreases c.len() - i,
{
    match named_field_at(c, i) {
        Option::None => {},
        Option::Some(f) => {
            if i < f.next <= c.len() {
                lemma_fields_from_emittable(c, f.next);
            }
            if fields_from(c, i) is Ok {
                let fs = fields_from(c, i)->Ok_0;
                assert forall|k: int| 0 <= k < fs.len() implies field_emittable(#[trigger] fs[k]) by {
                    if k == 0 {
                        lemma_attrs_emittable(f.name, f.attrs.bpaf, f.attrs.docs, fs[0]);
                    } else {
                        let rest = fields_from(c, f.next)->Ok_0;
                        assert(fs[k] == rest[k - 1]);
                    }
                }
            }
        },
    }
}

proof fn lemma_convert_tuple_emittable(c: Seq<Tok>, raws: Seq<(CollectedSpec, int, int)>, idx: nat)
    ensures
        convert_tuple(c, raws, idx) matches Result::Ok(Option::Some(fs)) ==> fields_emittable(fs),
    decreases raws.len(),
{
    if raws.len() > 0 {
        lemma_convert_tuple_emittable(c, raws.drop_first(), idx + 1);
        if let Result::Ok(Option::Some(fs)) = convert_tuple(c, raws, idx) {
            let (a, s, k) = raws[0];
            let name = "field_"@ + decimal(idx);
            assert forall|m: int| 0 <= m < fs.len() implies field_emittable(#[trigger] fs[m]) by {
                if m == 0 {
                    if !(a.bpaf.len() == 0 && a.docs.len() == 0) {
                        lemma_attrs_emittable(name, a.bpaf, a.docs, fs[0]);
                    }
                } else {
                    let rest = convert_tuple(c, raws.drop_first(), idx + 1)->Ok_0->Some_0;
                    assert(fs[m] == rest[m - 1]);
                }
            }
        }
    }
}

proof fn lemma_variant_at_emittable(c: Seq<Tok>, i: int)
    ensures
        variant_at(c, i) matches Result::Ok(Option::Some(v)) ==> fields_emittable(v.fields),
{
    let a = crate::grammar::attrs_from(c, i);
    let j = a.end;
    if 0 <= j < c.len() && crate::tokens::is_ident(c[j]) && j + 1 < c.len() {
        let g = crate::tokens::inner(c[j + 1]);
        if crate::tokens::is_paren(c[j + 1]) && crate::top::tuple_fields(g, 0) is Some {
            lemma_convert_tuple_emittable(g, crate::top::tuple_fields(g, 0).unwrap(), 0);
        } else if crate::tokens::is_brace(c[j + 1]) {
            lemma_fields_from_emittable(g, 0);
        }
    }
}

proof fn lemma_variants_from_emittable(c: Seq<Tok>, i: int)
    ensures
        variants_from(c, i) matches Result::Ok(vs) ==> forall|k: int|
            0 <= k < vs.len() ==> fields_emittable(#[trigger] vs[k].fields),
    decreases c.len() - i,
{
    lemma_variant_at_emittable(c, i);
    if let Result::Ok(Option::Some(v)) = variant_at(c, i) {
        let next = if 0 <= v.next < c.len() && crate::tokens::is_punct(c[v.next], ',') {
            v.next + 1
        } else {
            v.next
        };
        if i < next <= c.len() {
            lemma_variants_from_emittable(c, next);
        }
        if let Result::Ok(vs) = variants_from(c, i) {
            assert forall|k: int| 0 <= k < vs.len() implies fields_emittable(#[trigger] vs[k].fields) by {
                if k > 0 {
                    let rest = variants_from(c, next)->Ok_0;
                    assert(vs[k] == rest[k - 1]);
                }
            }
        }
    }
}

/// Every item that reading accepts can be written out: a positional field that also
/// has a name is refused while its attributes are read.
pub proof fn accepted_items_are_emittable(s: Seq<Tok>)
    ensures
        top_of(s) matches Result::Ok(t) ==> top_emittable(t),
{
    let a = crate::grammar::attrs_from(s, 0);
    let k = crate::grammar::vis_end(s, a.end);
    if let Result::Ok(t) = top_of(s) {
        assert(0 <= k < s.len() && k + 1 < s.len());
        let m = crate::top::body_pos(s, k + 2).unwrap();
        assert(crate::top::body_pos(s, k + 2) is Some);
        lemma_body_pos_in(s, k + 2);
        let g = crate::tokens::inner(s[m]);
        lemma_variants_from_emittable(g, 0);
        lemma_fields_from_emittable(g, 0);
        match t.body {
            BodySpec::Struct(fs) => {
                if crate::tokens::is_brace(s[m]) {
                    assert(fs == fields_from(g, 0)->Ok_0);
                } else {
                    assert(fs.len() == 0);
                }
            },
            BodySpec::Enum(vs) => {
                assert(vs == variants_from(g, 0)->Ok_0);
            },
        }
    }
}

proof fn lemma_body_pos_in(s: Seq<Tok>, i: int)
    ensures
        crate::top::body_pos(s, i) matches Option::Some(m) ==> 0 <= m < s.len(),
    decreases s.len() - i,
{
    if !(i < 0 || i >= s.len()) && !(crate::tokens::is_brace(s[i]) || crate::tokens::is_punct(s[i], ';')) {
        lemma_body_pos_in(s, i + 1);
    }
}

// ----------------------------------------------------------------------------
// executable counterparts

fn lit_into(out: &mut String, s: &str)
    ensures
        final(out)@ == old(out)@ + string_literal(s@),
{
    let l = quote_str(s);
    push_text(out, l.as_str());
}

fn char_into(out: &mut String, c: char)
    ensures
        final(out)@ == old(out)@ + char_literal(c),
{
    let l = quote_char(c);
    push_text(out, l.as_str());
}

fn call_into(out: &mut String, name: &str, arg: &str)
    ensures
        final(out)@ == old(out)@ + "."@ + name@ + "("@ + arg@ + ")"@,
{
    push_text(out, ".");
    push_text(out, name);
    push_text(out, "(");
    push_text(out, arg);
    push_text(out, ")");
    assert(final(out)@ =~= old(out)@ + "."@ + name@ + "("@ + arg@ + ")"@);
}

/// Appends a type-changing post-processing call.
pub fn apply_post_parse(parser: &mut String, post: &PostParse)
    ensures
        final(parser)@ == post_parse_code(old(parser)@, post@),
{
    match post {
        PostParse::MapFn { f } => call_into(parser, "map", f.as_str()),
        PostParse::Parse { f } => call_into(parser, "parse", f.as_str()),
        PostParse::Optional => push_text(parser, ".optional()"),
        PostParse::Many => push_text(parser, ".many()"),
        PostParse::SomeMsg { msg } => call_into(parser, "some", msg.as_str()),
        PostParse::Catch => push_text(parser, ".catch()"),
        PostParse::Collect => push_text(parser, ".collect()"),
        PostParse::Count => push_text(parser, ".count()"),
        PostParse::Anywhere => push_text(parser, ".anywhere()"),
        PostParse::Adjacent => push_text(parser, ".adjacent()"),
        PostParse::Strict => push_text(parser, ".strict()"),
        PostParse::NonStrict => push_text(parser, ".non_strict()"),
    }
    proof {
        reveal_strlit(".");
        reveal_strlit("(");
        reveal_strlit(")");
        reveal_strlit(".map(");
        reveal_strlit("map");
        reveal_strlit(".parse(");
        reveal_strlit("parse");
        reveal_strlit(".some(");
        reveal_strlit("some");
    }
    assert(final(parser)@ =~= post_parse_code(old(parser)@, post@));
}

/// Appends a decorating call.
pub fn apply_post_decor(parser: &mut String, post: &PostDecor)
    ensures
        final(parser)@ == post_decor_code(old(parser)@, post@),
{
    match post {
        PostDecor::Guard { check, msg } => {
            push_text(parser, ".guard(");
            push_text(parser, check.as_str());
            push_text(parser, ", ");
            push_text(parser, msg.as_str());
            push_text(parser, ")");
        },
        PostDecor::Hide => push_text(parser, ".hide()"),
        PostDecor::HideUsage => push_text(parser, ".hide_usage()"),
        PostDecor::CustomUsage { usage } => call_into(parser, "custom_usage", usage.as_str()),
        PostDecor::FallbackWith { f } => call_into(parser, "fallback_with", f.as_str()),
        PostDecor::GroupHelp { doc } => call_into(parser, "group_help", doc.as_str()),
        PostDecor::DebugFallback => push_text(parser, ".debug_fallback()"),
        PostDecor::DisplayFallback => push_text(parser, ".display_fallback()"),
        PostDecor::FormatFallback { formatter } => call_into(
            parser,
            "format_fallback",
            formatter.as_str(),
        ),
        PostDecor::Last => push_text(parser, ".last()"),
        PostDecor::Complete { f } => call_into(parser, "complete", f.as_str()),
        PostDecor::CompleteGroup { group } => {
            push_text(parser, ".group(");
            lit_into(parser, group.as_str());
            push_text(parser, ")");
        },
        PostDecor::CompleteShell { f } => call_into(parser, "complete_shell", f.as_str()),
    }
    proof {
        reveal_strlit(".");
        reveal_strlit("(");
        reveal_strlit(")");
        reveal_strlit(".custom_usage(");
        reveal_strlit("custom_usage");
        reveal_strlit(".fallback_with(");
        reveal_strlit("fallback_with");
        reveal_strlit(".group_help(");
        reveal_strlit("group_help");
        reveal_strlit(".format_fallback(");
        reveal_strlit("format_fallback");
        reveal_strlit(".complete(");
        reveal_strlit("complete");
        reveal_strlit(".complete_shell(");
        reveal_strlit("complete_shell");
    }
    assert(final(parser)@ =~= post_decor_code(old(parser)@, post@));
}

/// Appends a post-processing call.
pub fn apply_post(parser: &mut String, post: &Post)
    ensures
        final(parser)@ == post_code(old(parser)@, post@),
{
    match post {
        Post::Parse(pp) => apply_post_parse(parser, pp),
        Post::Decor(pd) => apply_post_decor(parser, pd),
    }
}

/// Appends the post-processing calls in order.
pub fn apply_posts(parser: &mut String, posts: &Vec<Post>)
    ensures
        final(parser)@ == posts_code(old(parser)@, posts_view(posts@)),
{
    let ghost whole = posts_view(posts@);
    let ghost start = parser@;
    let mut i: usize = 0;
    assert(whole.subrange(0, whole.len() as int) =~= whole);
    while i < posts.len()
        invariant
            i <= posts@.len(),
            whole == posts_view(posts@),
            posts_code(start, whole) == posts_code(parser@, whole.subrange(i as int, whole.len() as int)),
        decreases posts@.len() - i,
    {
        let ghost rest = whole.subrange(i as int, whole.len() as int);
        assert(rest[0] == posts@[i as int]@);
        assert(rest.drop_first() =~= whole.subrange(i + 1, whole.len() as int));
        apply_post(parser, &posts[i]);
        i = i + 1;
    }
    assert(whole.subrange(i as int, whole.len() as int) =~= Seq::<Post<Seq<char>>>::empty());
}

fn opt_call_into(parser: &mut String, name: &str, o: &Option<String>)
    ensures
        final(parser)@ == opt_call(old(parser)@, name@, ov(*o)),
{
    if let Option::Some(a) = o {
        call_into(parser, name, a.as_str());
    }
}

/// Apply OptionsCfg configuration to the parser
pub fn apply_options_cfg(parser: &mut String, cfg: &OptionsCfg)
    ensures
        final(parser)@ == options_code(old(parser)@, cfg@),
{
    opt_call_into(parser, "descr", &cfg.descr);
    opt_call_into(parser, "footer", &cfg.footer);
    opt_call_into(parser, "header", &cfg.header);
    opt_call_into(parser, "usage", &cfg.usage);
    opt_call_into(parser, "version", &cfg.version);
    opt_call_into(parser, "max_width", &cfg.max_width);
    if cfg.fallback_usage {
        push_text(parser, ".fallback_to_usage()");
    }
}

fn longs_into(parser: &mut String, ls: &Vec<String>)
    ensures
        final(parser)@ == longs_code(old(parser)@, texts_view(ls@)),
{
    let ghost whole = texts_view(ls@);
    let ghost start = parser@;
    let mut i: usize = 0;
    assert(whole.subrange(0, whole.len() as int) =~= whole);
    while i < ls.len()
        invariant
            i <= ls@.len(),
            whole == texts_view(ls@),
            longs_code(start, whole) == longs_code(parser@, whole.subrange(i as int, whole.len() as int)),
        decreases ls@.len() - i,
    {
        let ghost rest = whole.subrange(i as int, whole.len() as int);
        assert(rest[0] == ls@[i as int]@);
        assert(rest.drop_first() =~= whole.subrange(i + 1, whole.len() as int));
        let ghost before = parser@;
        push_text(parser, ".long(");
        lit_into(parser, ls[i].as_str());
        push_text(parser, ")");
        assert(parser@ =~= before + ".long("@ + string_literal(rest[0]) + ")"@);
        i = i + 1;
    }
    assert(whole.subrange(i as int, whole.len() as int) =~= Seq::<Seq<char>>::empty());
}

fn shorts_into(parser: &mut String, cs: &Vec<char>)
    ensures
        final(parser)@ == shorts_code(old(parser)@, cs@),
{
    let ghost whole = cs@;
    let ghost start = parser@;
    let mut i: usize = 0;
    assert(whole.subrange(0, whole.len() as int) =~= whole);
    while i < cs.len()
        invariant
            i <= cs@.len(),
            whole == cs@,
            shorts_code(start, whole) == shorts_code(parser@, whole.subrange(i as int, whole.len() as int)),
        decreases cs@.len() - i,
    {
        let ghost rest = whole.subrange(i as int, whole.len() as int);
        assert(rest.drop_first() =~= whole.subrange(i + 1, whole.len() as int));
        let ghost before = parser@;
        push_text(parser, ".short(");
        char_into(parser, cs[i]);
        push_text(parser, ")");
        assert(parser@ =~= before + ".short("@ + char_literal(rest[0]) + ")"@);
        i = i + 1;
    }
    assert(whole.subrange(i as int, whole.len() as int) =~= Seq::<char>::empty());
}


fn argument_into(out: &mut String, ty: &str, metavar: &str)
    ensures
        final(out)@ == argument_code(old(out)@, ty@, metavar@),
{
    push_text(out, ".argument::<");
    push_text(out, ty);
    push_text(out, ">(");
    lit_into(out, metavar);
    push_text(out, ")");
}

fn is_standalone_exec(c: &Option<ConsumerType>) -> (r: bool)
    ensures
        r == is_standalone(consumer_view(*c)),
{
    match c {
        Option::Some(ConsumerType::Any { .. }) => true,
        Option::Some(ConsumerType::Positional { .. }) => true,
        _ => false,
    }
}

fn help_supported_exec(c: &Option<ConsumerType>) -> (r: bool)
    ensures
        r == help_supported(consumer_view(*c)),
{
    match c {
        Option::Some(ConsumerType::External { .. }) => false,
        Option::Some(ConsumerType::Pure { .. }) => false,
        Option::Some(ConsumerType::PureWith { .. }) => false,
        _ => true,
    }
}

fn is_pure_exec(c: &Option<ConsumerType>) -> (r: bool)
    ensures
        r == is_pure(consumer_view(*c)),
{
    match c {
        Option::Some(ConsumerType::Pure { .. }) => true,
        Option::Some(ConsumerType::PureWith { .. }) => true,
        _ => false,
    }
}

fn has_post_parse_exec(ps: &Vec<Post>) -> (r: bool)
    ensures
        r == has_post_parse(posts_view(ps@)),
{
    let ghost v = posts_view(ps@);
    let mut i: usize = 0;
    while i < ps.len()
        invariant
            i <= ps@.len(),
            v == posts_view(ps@),
            forall|j: int| 0 <= j < i ==> !(#[trigger] v[j] is Parse),
        decreases ps@.len() - i,
    {
        if matches!(ps[i], Post::Parse(_)) {
            assert(v[i as int] is Parse);
            return true;
        }
        i = i + 1;
    }
    false
}

impl Top {
    /// Get the bpaf crate path to use (either custom or default ::bpaf)
    pub fn bpaf_crate(&self) -> (r: String)
        ensures
            r@ == bpaf_of(self@),
    {
        match &self.bpaf_path {
            Option::Some(p) => copy_text(p.as_str()),
            Option::None => copy_text("::bpaf"),
        }
    }
}

fn parser_type_exec(f: &StructField) -> (r: &str)
    ensures
        r@ == parser_type(f@),
{
    match &f.shape {
        TypeShape::Optional(t) => t.as_str(),
        TypeShape::Multiple(t) => t.as_str(),
        TypeShape::Direct(t) => t.as_str(),
        _ => f.ty.as_str(),
    }
}

fn base_parser_exec(b: &str, f: &StructField) -> (r: Option<String>)
    ensures
        ov(r) == base_parser(b@, f@),
{
    let a = &f.attrs;
    let named: Option<String> = match a.short {
        Option::Some(c) => {
            let mut s = copy_text(b);
            push_text(&mut s, "::short(");
            char_into(&mut s, c);
            match &a.long {
                Option::Some(l) => {
                    push_text(&mut s, ").long(");
                    lit_into(&mut s, l.as_str());
                    push_text(&mut s, ")");
                    assert(s@ =~= b@ + "::short("@ + char_literal(c) + ").long("@ + string_literal(l@)
                        + ")"@);
                },
                Option::None => {
                    push_text(&mut s, ")");
                    assert(s@ =~= b@ + "::short("@ + char_literal(c) + ")"@);
                },
            }
            Option::Some(s)
        },
        Option::None => match &a.long {
            Option::Some(l) => {
                let mut s = copy_text(b);
                push_text(&mut s, "::long(");
                lit_into(&mut s, l.as_str());
                push_text(&mut s, ")");
                assert(s@ =~= b@ + "::long("@ + string_literal(l@) + ")"@);
                Option::Some(s)
            },
            Option::None => {
                if a.env.is_none() && !is_standalone_exec(&a.consumer) {
                    let k = to_kebab_case(f.name.as_str());
                    let mut s = copy_text(b);
                    push_text(&mut s, "::long(");
                    lit_into(&mut s, k.as_str());
                    push_text(&mut s, ")");
                    assert(s@ =~= b@ + "::long("@ + string_literal(custom_case(f.name@, '-'))
                        + ")"@);
                    Option::Some(s)
                } else {
                    Option::None
                }
            },
        },
    };
    match &a.env {
        Option::Some(e) => match named {
            Option::Some(n) => {
                let mut n = n;
                let ghost n0 = n@;
                push_text(&mut n, ".env(");
                push_text(&mut n, e.as_str());
                push_text(&mut n, ")");
                assert(n@ =~= n0 + ".env("@ + e@ + ")"@);
                Option::Some(n)
            },
            Option::None => {
                let mut s = copy_text(b);
                push_text(&mut s, "::env(");
                push_text(&mut s, e.as_str());
                push_text(&mut s, ")");
                assert(s@ =~= b@ + "::env("@ + e@ + ")"@);
                Option::Some(s)
            },
        },
        Option::None => named,
    }
}

fn named_consumer_exec(b: &str, f: &StructField, bp: String) -> (r: String)
    ensures
        r@ == named_consumer_code(b@, f@, bp@),
{
    let mut p = bp;
    match &f.attrs.consumer {
        Option::Some(ConsumerType::Switch) => {
            push_text(&mut p, ".switch()");
            p
        },
        Option::Some(ConsumerType::Argument { metavar }) => {
            let ty = parser_type_exec(f);
            match metavar {
                Option::Some(m) => argument_into(&mut p, ty, m.as_str()),
                Option::None => argument_into(&mut p, ty, f.name.as_str()),
            }
            p
        },
        Option::Some(ConsumerType::Positional { .. }) => p,
        Option::Some(ConsumerType::Flag { present, absent }) => {
            let ghost p0 = p@;
            push_text(&mut p, ".flag(");
            push_text(&mut p, present.as_str());
            push_text(&mut p, ", ");
            push_text(&mut p, absent.as_str());
            push_text(&mut p, ")");
            assert(p@ =~= p0 + ".flag("@ + present@ + ", "@ + absent@ + ")"@);
            p
        },
        Option::Some(ConsumerType::ReqFlag { present }) => {
            let ghost p0 = p@;
            push_text(&mut p, ".req_flag(");
            push_text(&mut p, present.as_str());
            push_text(&mut p, ")");
            assert(p@ =~= p0 + ".req_flag("@ + present@ + ")"@);
            p
        },
        Option::Some(ConsumerType::Any { metavar, check, .. }) => {
            argument_into(&mut p, "String", metavar.as_str());
            let ghost p1 = p@;
            push_text(&mut p, ".parse(|s: String| { (");
            push_text(&mut p, check.as_str());
            push_text(&mut p, ")(s).ok_or(\"validation failed\") })");
            assert(p@ =~= p1 + ".parse(|s: String| { ("@ + check@
                + ")(s).ok_or(\"validation failed\") })"@);
            p
        },
        Option::Some(ConsumerType::External { ident }) => {
            let mut r = match ident {
                Option::Some(path) => copy_text(path.as_str()),
                Option::None => copy_text(f.name.as_str()),
            };
            push_text(&mut r, "()");
            r
        },
        Option::Some(ConsumerType::Pure { expr }) => {
            let mut r = copy_text(b);
            push_text(&mut r, "::pure(");
            push_text(&mut r, expr.as_str());
            push_text(&mut r, ")");
            assert(r@ =~= b@ + "::pure("@ + expr@ + ")"@);
            r
        },
        Option::Some(ConsumerType::PureWith { expr }) => {
            let mut r = copy_text(b);
            push_text(&mut r, "::pure_with(");
            push_text(&mut r, expr.as_str());
            push_text(&mut r, ")");
            assert(r@ =~= b@ + "::pure_with("@ + expr@ + ")"@);
            r
        },
        Option::None => match &f.shape {
            TypeShape::Bool => {
                push_text(&mut p, ".switch()");
                p
            },
            TypeShape::Direct(t) => {
                argument_into(&mut p, t.as_str(), f.name.as_str());
                p
            },
            TypeShape::Optional(t) => {
                argument_into(&mut p, t.as_str(), f.name.as_str());
                p
            },
            TypeShape::Multiple(t) => {
                argument_into(&mut p, t.as_str(), f.name.as_str());
                p
            },
            TypeShape::Unit => {
                let mut r = copy_text(b);
                push_text(&mut r, "::pure(())");
                r
            },
        },
    }
}

fn consumer_exec(b: &str, f: &StructField) -> (r: String)
    ensures
        r@ == consumer_code(b@, f@),
{
    match base_parser_exec(b, f) {
        Option::Some(bp) => named_consumer_exec(b, f, bp),
        Option::None => match &f.attrs.consumer {
            Option::Some(ConsumerType::Positional { metavar }) => {
                let mut r = copy_text(b);
                push_text(&mut r, "::positional::<");
                push_text(&mut r, parser_type_exec(f));
                push_text(&mut r, ">(");
                match metavar {
                    Option::Some(m) => lit_into(&mut r, m.as_str()),
                    Option::None => lit_into(&mut r, "ARG"),
                }
                push_text(&mut r, ")");
                let ghost m: Seq<char> = match metavar {
                    Option::Some(m) => m@,
                    Option::None => "ARG"@,
                };
                assert(r@ =~= b@ + "::positional::<"@ + parser_type(f@) + ">("@ + string_literal(m)
                    + ")"@);
                r
            },
            Option::Some(ConsumerType::Any { metavar, ty, check }) => {
                let mut r = copy_text(b);
                match ty {
                    Option::Some(t) => {
                        push_text(&mut r, "::any::<");
                        push_text(&mut r, t.as_str());
                        push_text(&mut r, ", _, _>(");
                        lit_into(&mut r, metavar.as_str());
                        push_text(&mut r, ", ");
                        push_text(&mut r, check.as_str());
                        push_text(&mut r, ")");
                        assert(r@ =~= b@ + "::any::<"@ + t@ + ", _, _>("@ + string_literal(metavar@)
                            + ", "@ + check@ + ")"@);
                    },
                    Option::None => {
                        push_text(&mut r, "::any(");
                        lit_into(&mut r, metavar.as_str());
                        push_text(&mut r, ", ");
                        push_text(&mut r, check.as_str());
                        push_text(&mut r, ")");
                        assert(r@ =~= b@ + "::any("@ + string_literal(metavar@) + ", "@ + check@
                            + ")"@);
                    },
                }
                r
            },
            _ => String::new(),
        },
    }
}

proof fn lemma_posts_cons(p: Seq<char>, x: Post<Seq<char>>, ps: Seq<Post<Seq<char>>>)
    ensures
        posts_code(p, seq![x] + ps) == posts_code(post_code(p, x), ps),
{
    let whole = seq![x] + ps;
    assert(whole[0] == x);
    assert(whole.drop_first() =~= ps);
}

impl Top {
    /// Emit the parser expression of a field.
    pub fn emit_field(&self, field: &StructField) -> (r: String)
        requires
            field_emittable(field@),
        ensures
            r@ == field_code(bpaf_of(self@), field@),
    {
        let b = self.bpaf_crate();
        let mut p = consumer_exec(b.as_str(), field);
        let ghost p0 = p@;
        if let Option::Some(h) = &field.attrs.help {
            if help_supported_exec(&field.attrs.consumer) {
                push_text(&mut p, ".help(");
                lit_into(&mut p, h.as_str());
                push_text(&mut p, ")");
                assert(p@ =~= p0 + ".help("@ + string_literal(h@) + ")"@);
            }
        }
        let ghost p1 = p@;
        if let Option::Some(e) = &field.attrs.fallback {
            push_text(&mut p, ".fallback(");
            push_text(&mut p, e.as_str());
            push_text(&mut p, ")");
            assert(p@ =~= p1 + ".fallback("@ + e@ + ")"@);
        }
        let ghost p2 = p@;
        let ghost ps = posts_view(field.attrs.postpr@);
        if !has_post_parse_exec(&field.attrs.postpr) && !is_pure_exec(&field.attrs.consumer) {
            match &field.shape {
                TypeShape::Optional(_) => {
                    push_text(&mut p, ".optional()");
                    proof {
                        lemma_posts_cons(p2, Post::Parse(PostParse::Optional), ps);
                    }
                },
                TypeShape::Multiple(_) => {
                    push_text(&mut p, ".many()");
                    proof {
                        lemma_posts_cons(p2, Post::Parse(PostParse::Many), ps);
                    }
                },
                _ => {},
            }
        }
        apply_posts(&mut p, &field.attrs.postpr);
        p
    }
}

/// Target for field construction - used by emit_fields_construct
pub enum ConstructTarget<'a> {
    /// Construct a struct: StructName { field1, field2 }
    Struct,
    /// Construct a tuple enum variant: EnumName::Variant(field1, field2)
    EnumTupleVariant { enum_name: &'a str, variant_name: &'a str },
    /// Construct a struct enum variant: EnumName::Variant { field1, field2 }
    EnumStructVariant { enum_name: &'a str, variant_name: &'a str },
}

/// The path that the target is built by.
pub open spec fn target_path(struct_name: Seq<char>, ct: ConstructTarget) -> Seq<char> {
    match ct {
        ConstructTarget::Struct => struct_name,
        ConstructTarget::EnumTupleVariant { enum_name, variant_name } => enum_name@ + "::"@
            + variant_name@,
        ConstructTarget::EnumStructVariant { enum_name, variant_name } => enum_name@ + "::"@
            + variant_name@,
    }
}

/// The bracket that opens the list of fields.
pub open spec fn target_open(ct: ConstructTarget) -> Seq<char> {
    match ct {
        ConstructTarget::EnumTupleVariant { .. } => "("@,
        _ => " { "@,
    }
}

/// The bracket that closes the list of fields.
pub open spec fn target_close(ct: ConstructTarget) -> Seq<char> {
    match ct {
        ConstructTarget::EnumTupleVariant { .. } => ")"@,
        _ => " }"@,
    }
}

/// Every field can be written out.
pub open spec fn fields_emittable(fs: Seq<StructFieldSpec>) -> bool {
    forall|i: int| 0 <= i < fs.len() ==> field_emittable(#[trigger] fs[i])
}

impl Top {
    /// Generate field parsers and construction code for a set of fields
    /// Used by structs and enum variants to build parsers from fields
    pub fn emit_fields_construct(&self, fields: &Vec<StructField>, target: ConstructTarget) -> (r:
        String)
        requires
            fields_emittable(fields_view(fields@)),
        ensures
            r@ == construct_code(
                bpaf_of(self@),
                fields_view(fields@),
                target_path(self@.name, target),
                target_open(target),
                target_close(target),
            ),
    {
        let b = self.bpaf_crate();
        let ghost fs = fields_view(fields@);
        let ghost n = fs.len() as int;
        let ghost names_all = field_names(fs);
        let mut out = copy_text("{ ");
        let mut names = String::new();
        let mut i: usize = 0;
        assert(fs.subrange(0, n) =~= fs);
        assert(names_all.subrange(0, 0) =~= Seq::<Seq<char>>::empty());
        while i < fields.len()
            invariant
                i <= fields@.len(),
                n == fields@.len(),
                fs == fields_view(fields@),
                names_all == field_names(fs),
                b@ == bpaf_of(self@),
                fields_emittable(fs),
                out@ + field_lets(b@, fs.subrange(i as int, n)) == "{ "@ + field_lets(b@, fs),
                names@ == join(names_all.subrange(0, i as int), ", "@),
            decreases fields@.len() - i,
        {
            let ghost rest = fs.subrange(i as int, n);
            assert(rest[0] == fields@[i as int]@);
            assert(rest.drop_first() =~= fs.subrange(i + 1, n));
            assert(field_emittable(fs[i as int]));
            let ghost o0 = out@;
            push_text(&mut out, "let ");
            push_text(&mut out, fields[i].name.as_str());
            push_text(&mut out, " = ");
            let code = self.emit_field(&fields[i]);
            push_text(&mut out, code.as_str());
            push_text(&mut out, "; ");
            assert(out@ =~= o0 + ("let "@ + rest[0].name + " = "@ + field_code(b@, rest[0]) + "; "@));
            assert(out@ + field_lets(b@, fs.subrange(i + 1, n)) =~= o0 + field_lets(b@, rest));
            let ghost pre = names_all.subrange(0, i as int);
            let ghost next = names_all.subrange(0, i + 1);
            assert(next.drop_last() =~= pre);
            if i > 0 {
                push_text(&mut names, ", ");
            }
            push_text(&mut names, fields[i].name.as_str());
            proof {
                if i == 0 {
                    assert(next =~= seq![fields@[0]@.name]);
                }
            }
            i = i + 1;
        }
        assert(names_all.subrange(0, n) =~= names_all);
        assert(fs.subrange(n, n) =~= Seq::<StructFieldSpec>::empty());
        assert(out@ =~= "{ "@ + field_lets(b@, fs));
        let ghost o1 = out@;
        push_text(&mut out, b.as_str());
        push_text(&mut out, "::construct!(");
        match target {
            ConstructTarget::Struct => {
                push_text(&mut out, self.name.as_str());
                push_text(&mut out, " { ");
                push_text(&mut out, names.as_str());
                push_text(&mut out, " }");
            },
            ConstructTarget::EnumTupleVariant { enum_name, variant_name } => {
                push_text(&mut out, enum_name);
                push_text(&mut out, "::");
                push_text(&mut out, variant_name);
                push_text(&mut out, "(");
                push_text(&mut out, names.as_str());
                push_text(&mut out, ")");
            },
            ConstructTarget::EnumStructVariant { enum_name, variant_name } => {
                push_text(&mut out, enum_name);
                push_text(&mut out, "::");
                push_text(&mut out, variant_name);
                push_text(&mut out, " { ");
                push_text(&mut out, names.as_str());
                push_text(&mut out, " }");
            },
        }
        push_text(&mut out, ") }");
        assert(out@ =~= "{ "@ + field_lets(b@, fs) + b@ + "::construct!("@ + target_path(self@.name, target)
            + target_open(target) + join(names_all, ", "@) + target_close(target) + ") }"@);
        out
    }
}

impl Top {
    /// Emit tokens for a struct parser
    pub fn emit_struct(&self, fields: &Vec<StructField>) -> (r: String)
        requires
            fields_emittable(fields_view(fields@)),
        ensures
            r@ == struct_code(self@, fields_view(fields@)),
    {
        let b = self.bpaf_crate();
        if fields.len() == 0 {
            let mut r = copy_text(b.as_str());
            push_text(&mut r, "::pure(");
            push_text(&mut r, self.name.as_str());
            push_text(&mut r, " {})");
            assert(r@ =~= b@ + "::pure("@ + self@.name + " {})"@);
            return r;
        }
        let mut c = self.emit_fields_construct(fields, ConstructTarget::Struct);
        if self.adjacent {
            push_text(&mut c, ".adjacent()");
        }
        c
    }
}

fn has_commands_exec(vs: &Vec<EnumBranch>) -> (r: bool)
    ensures
        r == has_commands(branches_view(vs@)),
{
    let ghost v = branches_view(vs@);
    let mut i: usize = 0;
    while i < vs.len()
        invariant
            i <= vs@.len(),
            v == branches_view(vs@),
            forall|j: int| 0 <= j < i ==> !(#[trigger] v[j]).is_command,
        decreases vs@.len() - i,
    {
        if vs[i].is_command {
            assert(v[i as int].is_command);
            return true;
        }
        i = i + 1;
    }
    false
}

fn variant_help_exec(v: &EnumBranch) -> (r: Option<String>)
    ensures
        ov(r) == variant_help(v@),
{
    match &v.help {
        Option::Some(h) => Option::Some(copy_text(h.as_str())),
        Option::None => if v.doc_comments.len() > 0 {
            Option::Some(join_exec(&v.doc_comments, "\n"))
        } else {
            Option::None
        },
    }
}

fn variant_command_name_exec(v: &EnumBranch) -> (r: String)
    ensures
        r@ == variant_command_name(v@),
{
    match &v.command_name {
        Option::Some(n) => copy_text(n.as_str()),
        Option::None => to_kebab_case(v.name.as_str()),
    }
}

/// Apply command variant modifiers in the correct order
/// This includes: help, fallback_to_usage, command, long, short, and hide
pub fn apply_command_modifiers(
    base: String,
    help_text: Option<String>,
    variant: &EnumBranch,
    command_name: &str,
) -> (r: String)
    ensures
        r@ == command_modifiers(base@, ov(help_text), variant@, command_name@),
{
    let mut p = base;
    let ghost p0 = p@;
    if let Option::Some(h) = &help_text {
        push_text(&mut p, ".descr(");
        lit_into(&mut p, h.as_str());
        push_text(&mut p, ")");
        assert(p@ =~= p0 + ".descr("@ + string_literal(h@) + ")"@);
    }
    if variant.fallback_to_usage {
        push_text(&mut p, ".fallback_to_usage()");
    }
    let ghost p2 = p@;
    push_text(&mut p, ".command(");
    lit_into(&mut p, command_name);
    push_text(&mut p, ")");
    assert(p@ =~= p2 + ".command("@ + string_literal(command_name@) + ")"@);
    longs_into(&mut p, &variant.long_aliases);
    shorts_into(&mut p, &variant.short_aliases);
    if variant.hide {
        push_text(&mut p, ".hide()");
    }
    p
}

/// The variants whose fields get written out can all be.
pub open spec fn variants_emittable(vs: Seq<EnumBranchSpec>) -> bool {
    forall|i: int|
        0 <= i < vs.len() && !vs[i].skip && (vs[i].is_command || !has_commands(vs))
            ==> fields_emittable(#[trigger] vs[i].fields)
}

impl Top {
    /// The parser of one variant that is not skipped.
    fn emit_variant(&self, has_cmd: bool, variant: &EnumBranch) -> (r: String)
        requires
            variant.is_command || !has_cmd ==> fields_emittable(variant@.fields),
        ensures
            r@ == variant_code(self@, has_cmd, variant@),
    {
        let b = self.bpaf_crate();
        let command_name = variant_command_name_exec(variant);
        let help_text = variant_help_exec(variant);
        if has_cmd && variant.is_command {
            let mut base = if variant.fields.len() == 0 {
                let mut r = copy_text(b.as_str());
                push_text(&mut r, "::pure(");
                push_text(&mut r, self.name.as_str());
                push_text(&mut r, "::");
                push_text(&mut r, variant.name.as_str());
                push_text(&mut r, ").to_options()");
                assert(r@ =~= b@ + "::pure("@ + self@.name + "::"@ + variant@.name + ").to_options()"@);
                r
            } else {
                let mut c = self.emit_variant_fields(variant);
                push_text(&mut c, ".to_options()");
                c
            };
            apply_command_modifiers(base, help_text, variant, command_name.as_str())
        } else if has_cmd && variant.fields.len() > 0 {
            let mut msg = copy_text("Variant '");
            push_text(&mut msg, variant.name.as_str());
            push_text(
                &mut msg,
                "' has fields but no #[bpaf(command)] attribute. In enums with command variants, non-command variants must be unit variants.",
            );
            let mut r = copy_text("compile_error!(");
            lit_into(&mut r, msg.as_str());
            push_text(&mut r, ")");
            assert(msg@ =~= mixed_variant_message(variant@.name));
            r
        } else if variant.fields.len() == 0 {
            let mut r = copy_text(b.as_str());
            push_text(&mut r, "::long(");
            lit_into(&mut r, command_name.as_str());
            push_text(&mut r, ")");
            assert(r@ =~= b@ + "::long("@ + string_literal(command_name@) + ")"@);
            let ghost r1 = r@;
            if let Option::Some(h) = &help_text {
                push_text(&mut r, ".help(");
                lit_into(&mut r, h.as_str());
                push_text(&mut r, ")");
                assert(r@ =~= r1 + ".help("@ + string_literal(h@) + ")"@);
            }
            let ghost r2 = r@;
            push_text(&mut r, ".req_flag(");
            push_text(&mut r, self.name.as_str());
            push_text(&mut r, "::");
            push_text(&mut r, variant.name.as_str());
            push_text(&mut r, ")");
            assert(r@ =~= r2 + ".req_flag("@ + self@.name + "::"@ + variant@.name + ")"@);
            r
        } else {
            self.emit_variant_fields(variant)
        }
    }

    /// The parser of a variant with fields: its fields combined into the variant.
    fn emit_variant_fields(&self, variant: &EnumBranch) -> (r: String)
        requires
            fields_emittable(variant@.fields),
        ensures
            r@ == variant_construct(self@, variant@),
    {
        if variant.is_tuple {
            let target = ConstructTarget::EnumTupleVariant {
                enum_name: self.name.as_str(),
                variant_name: variant.name.as_str(),
            };
            self.emit_fields_construct(&variant.fields, target)
        } else {
            let target = ConstructTarget::EnumStructVariant {
                enum_name: self.name.as_str(),
                variant_name: variant.name.as_str(),
            };
            self.emit_fields_construct(&variant.fields, target)
        }
    }
}

impl Top {
    /// Emit tokens for an enum parser
    #[verifier::rlimit(40)]
    pub fn emit_enum(&self, variants: &Vec<EnumBranch>) -> (r: String)
        requires
            variants_emittable(branches_view(variants@)),
        ensures
            r@ == enum_code(self@, branches_view(variants@)),
    {
        let b = self.bpaf_crate();
        let has_cmd = has_commands_exec(variants);
        let ghost vs = branches_view(variants@);
        let ghost n = vs.len() as int;
        let mut lets = String::new();
        let mut names = String::new();
        let mut k: usize = 0;
        let mut i: usize = 0;
        assert(vs.subrange(0, n) =~= vs);
        assert(vs.subrange(0, 0) =~= Seq::<EnumBranchSpec>::empty());
        assert(variant_names(0) =~= Seq::<Seq<char>>::empty());
        while i < variants.len()
            invariant
                i <= variants@.len(),
                n == variants@.len(),
                vs == branches_view(variants@),
                has_cmd == has_commands(vs),
                variants_emittable(vs),
                k <= i,
                k == kept_count(vs.subrange(0, i as int)),
                lets@ + variant_lets(self@, has_cmd, vs.subrange(i as int, n), k as nat) == variant_lets(
                    self@,
                    has_cmd,
                    vs,
                    0,
                ),
                names@ == join(variant_names(k as nat), ", "@),
            decreases variants@.len() - i,
        {
            let ghost rest = vs.subrange(i as int, n);
            assert(rest[0] == variants@[i as int]@);
            assert(rest.drop_first() =~= vs.subrange(i + 1, n));
            let ghost pre = vs.subrange(0, i as int);
            let ghost next = vs.subrange(0, i + 1);
            assert(next.drop_last() =~= pre);
            assert(next.last() == vs[i as int]);
            if !variants[i].skip {
                assert(!vs[i as int].skip);
                let code = self.emit_variant(has_cmd, &variants[i]);
                let num = decimal_exec(k);
                let ghost l0 = lets@;
                push_text(&mut lets, "let variant_");
                push_text(&mut lets, num.as_str());
                push_text(&mut lets, " = ");
                push_text(&mut lets, code.as_str());
                push_text(&mut lets, "; ");
                assert(lets@ =~= l0 + ("let variant_"@ + decimal(k as nat) + " = "@ + variant_code(
                    self@,
                    has_cmd,
                    rest[0],
                ) + "; "@));
                assert(lets@ + variant_lets(self@, has_cmd, vs.subrange(i + 1, n), (k + 1) as nat)
                    =~= l0 + variant_lets(self@, has_cmd, rest, k as nat));
                let ghost nm = variant_names((k + 1) as nat);
                assert(nm.drop_last() =~= variant_names(k as nat));
                if k > 0 {
                    push_text(&mut names, ", ");
                }
                push_text(&mut names, "variant_");
                push_text(&mut names, num.as_str());
                proof {
                    if k == 0 {
                        assert(nm =~= seq!["variant_"@ + decimal(0)]);
                    }
                }
                k = k + 1;
            }
            i = i + 1;
        }
        assert(vs.subrange(n, n) =~= Seq::<EnumBranchSpec>::empty());
        assert(lets@ =~= variant_lets(self@, has_cmd, vs, 0));
        if k == 0 {
            let mut r = copy_text(b.as_str());
            push_text(&mut r, "::fail(\"No variants available\")");
            return r;
        }
        let mut out = copy_text("{ ");
        push_text(&mut out, lets.as_str());
        push_text(&mut out, b.as_str());
        push_text(&mut out, "::construct!([");
        push_text(&mut out, names.as_str());
        push_text(&mut out, "]) }");
        assert(out@ =~= "{ "@ + variant_lets(self@, has_cmd, vs, 0) + b@ + "::construct!(["@ + join(
            variant_names(kept_count(vs)),
            ", "@,
        ) + "]) }"@);
        out
    }
}

impl Top {
    /// Emit the parser body based on fields or variants
    pub fn emit_body(&self) -> (r: String)
        requires
            top_emittable(self@),
        ensures
            r@ == body_code(self@),
    {
        match &self.body {
            Body::Struct(fields) => self.emit_struct(fields),
            Body::Enum(variants) => self.emit_enum(variants),
        }
    }

    /// The parser with the mode's wrapping, as `mode_code` states it.
    fn emit_parser(&self) -> (r: String)
        requires
            top_emittable(self@),
        ensures
            r@ == mode_code(self@),
    {
        let mut p = self.emit_body();
        let ghost p0 = p@;
        if let Option::Some(e) = &self.fallback {
            push_text(&mut p, ".fallback(");
            push_text(&mut p, e.as_str());
            push_text(&mut p, ")");
            assert(p@ =~= p0 + ".fallback("@ + e@ + ")"@);
        }
        apply_posts(&mut p, &self.attrs);
        let b = self.bpaf_crate();
        match &self.mode {
            Mode::Options { options } => {
                if let Option::Some(h) = &options.cargo_helper {
                    let ghost inner = p@;
                    let mut w = copy_text(b.as_str());
                    push_text(&mut w, "::cargo_helper(");
                    lit_into(&mut w, h.as_str());
                    push_text(&mut w, ", ");
                    push_text(&mut w, p.as_str());
                    push_text(&mut w, ")");
                    assert(w@ =~= b@ + "::cargo_helper("@ + string_literal(h@) + ", "@ + inner + ")"@);
                    p = w;
                }
                push_text(&mut p, ".to_options()");
                apply_options_cfg(&mut p, options);
                p
            },
            Mode::Command { command, options } => {
                push_text(&mut p, ".to_options()");
                apply_options_cfg(&mut p, options);
                let name = match &command.name {
                    Option::Some(n) => copy_text(n.as_str()),
                    Option::None => to_lowercase(self.name.as_str()),
                };
                let ghost p1 = p@;
                push_text(&mut p, ".command(");
                lit_into(&mut p, name.as_str());
                push_text(&mut p, ")");
                assert(p@ =~= p1 + ".command("@ + string_literal(name@) + ")"@);
                shorts_into(&mut p, &command.short);
                longs_into(&mut p, &command.long);
                let ghost p2 = p@;
                if let Option::Some(h) = &command.help {
                    push_text(&mut p, ".help(");
                    push_text(&mut p, h.as_str());
                    push_text(&mut p, ")");
                    assert(p@ =~= p2 + ".help("@ + h@ + ")"@);
                }
                if self.boxed {
                    push_text(&mut p, ".boxed()");
                }
                p
            },
            Mode::Parser { parser } => {
                let ghost p1 = p@;
                if let Option::Some(g) = &parser.group_help {
                    push_text(&mut p, ".group_help(");
                    push_text(&mut p, g.as_str());
                    push_text(&mut p, ")");
                    assert(p@ =~= p1 + ".group_help("@ + g@ + ")"@);
                }
                if self.boxed {
                    push_text(&mut p, ".boxed()");
                }
                p
            },
        }
    }

    /// The return type of the generated function.
    fn emit_return_type(&self, self_ty: &str) -> (r: String)
        ensures
            r@ == return_type_of(self@, self_ty@),
    {
        let b = self.bpaf_crate();
        let options = match &self.mode {
            Mode::Options { .. } => true,
            _ => false,
        };
        let mut r = match &self.mode {
            Mode::Options { .. } => {
                let mut r = copy_text(b.as_str());
                push_text(&mut r, "::OptionParser<");
                r
            },
            _ => if self.boxed {
                let mut r = copy_text("Box<dyn ");
                push_text(&mut r, b.as_str());
                push_text(&mut r, "::Parser<");
                r
            } else {
                let mut r = copy_text("impl ");
                push_text(&mut r, b.as_str());
                push_text(&mut r, "::Parser<");
                r
            },
        };
        push_text(&mut r, self_ty);
        if !options && self.boxed {
            push_text(&mut r, ">>");
        } else {
            push_text(&mut r, ">");
        }
        assert(r@ =~= return_type_of(self@, self_ty@));
        r
    }

    fn emit_visibility(&self) -> (r: String)
        ensures
            r@ == visibility(self@),
    {
        if self.private {
            let r = String::new();
            assert(r@ =~= Seq::<char>::empty());
            r
        } else {
            copy_text("pub ")
        }
    }

    fn emit_method_name(&self) -> (r: String)
        ensures
            r@ == method_name(self@),
    {
        match &self.custom_name {
            Option::Some(n) => copy_text(n.as_str()),
            Option::None => copy_text("parse"),
        }
    }

    fn emit_impl(&self) -> (r: String)
        requires
            top_emittable(self@),
        ensures
            r@ == impl_code(self@),
    {
        let body = self.emit_parser();
        let rt = self.emit_return_type("Self");
        let b = self.bpaf_crate();
        let vis = self.emit_visibility();
        let method = self.emit_method_name();
        let mut out = copy_text("#[allow(unused_imports)] impl ");
        push_text(&mut out, self.name.as_str());
        push_text(&mut out, " { ");
        push_text(&mut out, vis.as_str());
        push_text(&mut out, "fn ");
        push_text(&mut out, method.as_str());
        push_text(&mut out, "() -> ");
        push_text(&mut out, rt.as_str());
        push_text(&mut out, " { use ");
        push_text(&mut out, b.as_str());
        push_text(&mut out, "::Parser as _; ");
        push_text(&mut out, body.as_str());
        push_text(&mut out, " } }");
        assert(out@ =~= impl_code(self@));
        out
    }

    fn emit_free_fn(&self) -> (r: String)
        ensures
            r@ == free_fn_code(self@),
    {
        let vis = self.emit_visibility();
        let method = self.emit_method_name();
        let rt = self.emit_return_type(self.name.as_str());
        let snake = to_snake_case(self.name.as_str());
        let mut out = copy_text(vis.as_str());
        push_text(&mut out, "fn ");
        push_text(&mut out, snake.as_str());
        push_text(&mut out, "() -> ");
        push_text(&mut out, rt.as_str());
        push_text(&mut out, " { ");
        push_text(&mut out, self.name.as_str());
        push_text(&mut out, "::");
        push_text(&mut out, method.as_str());
        push_text(&mut out, "() }");
        assert(out@ =~= free_fn_code(self@));
        out
    }

    /// The generated code: an inherent impl of the annotated type with its parser
    /// function, and a free function named after the type in snake case that returns
    /// the same parser.
    pub fn to_code(&self) -> (r: String)
        requires
            top_emittable(self@),
        ensures
            r@ == item_code(self@),
    {
        let mut out = self.emit_impl();
        let free = self.emit_free_fn();
        push_text(&mut out, " ");
        push_text(&mut out, free.as_str());
        out
    }
}

/// The code of a compile error with the given message.
pub open spec fn compile_error_code(msg: Seq<char>) -> Seq<char> {
    "compile_error!("@ + string_literal(msg) + ");"@
}

/// What the derive makes of the token trees of an annotated struct or enum: the
/// generated code, or a compile error that says why the input was refused.
pub open spec fn derive_output(s: Seq<Tok>) -> Seq<char> {
    match top_of(s) {
        Result::Ok(t) => item_code(t),
        Result::Err(e) => compile_error_code(error_message(e)),
    }
}

/// The code that the derive produces for the token trees of an annotated struct or
/// enum.
pub fn derive_code(tokens: &Vec<Tok>) -> (r: String)
    ensures
        r@ == derive_output(tokens@),
{
    match Top::parse(tokens) {
        Result::Ok(top) => {
            proof {
                accepted_items_are_emittable(tokens@);
            }
            top.to_code()
        },
        Result::Err(e) => {
            let msg = e.message();
            let mut r = copy_text("compile_error!(");
            lit_into(&mut r, msg.as_str());
            push_text(&mut r, ");");
            r
        },
    }
}


/// The keywords of a field's post-processing calls that take no argument.
pub open spec fn bare_post_kw(k: Kw) -> bool {
    match k {
        Kw::Optional | Kw::Many | Kw::Catch | Kw::Collect | Kw::Count | Kw::Anywhere | Kw::Adjacent
        | Kw::Strict | Kw::NonStrict | Kw::Hide | Kw::HideUsage | Kw::DebugFallback
        | Kw::DisplayFallback | Kw::Last => true,
        _ => false,
    }
}

/// The keywords of a field's post-processing calls whose argument is passed on as
/// written.
pub open spec fn arg_post_kw(k: Kw) -> bool {
    match k {
        Kw::MapFn | Kw::Parse | Kw::SomeMsg | Kw::CustomUsage | Kw::FallbackWith | Kw::GroupHelp
        | Kw::FormatFallback | Kw::Complete | Kw::CompleteShell => true,
        _ => false,
    }
}

/// A post-processing keyword `w` of a field adds one entry to the end of the field's
/// post-processing list and changes nothing else; that entry appends to any parser the
/// call of the bpaf method named `w`: `.w()`, or `.w(arg)` with the item's argument.
pub proof fn post_keyword_calls_its_method(
    fa: FieldAttrsSpec,
    name: Seq<char>,
    w: Seq<char>,
    k: Kw,
    p: Payload<Seq<char>>,
    parser: Seq<char>,
)
    requires
        kw_of(w) == Option::Some(k),
        bare_post_kw(k) || arg_post_kw(k),
    ensures
        ({
            let r = apply_field_item(fa, name, Inner { kw: Option::Some(k), payload: p });
            &&& r is Ok
            &&& r->Ok_0.postpr.len() == fa.postpr.len() + 1
            &&& r->Ok_0.postpr.drop_last() == fa.postpr
            &&& r->Ok_0 == FieldAttrsSpec { postpr: r->Ok_0.postpr, ..fa }
            &&& bare_post_kw(k) ==> post_code(parser, r->Ok_0.postpr.last()) == parser + "."@ + w + "()"@
            &&& arg_post_kw(k) ==> post_code(parser, r->Ok_0.postpr.last()) == parser + "."@ + w + "("@
                + payload_text(p) + ")"@
        }),
{
    let r = apply_field_item(fa, name, Inner { kw: Option::Some(k), payload: p });
    assert(r->Ok_0.postpr.drop_last() =~= fa.postpr);
    reveal_strlit(".");
    reveal_strlit("()");
    reveal_strlit("(");
    reveal_strlit(")");
    match k {
        Kw::Optional => {
            reveal_strlit("optional");
            reveal_strlit(".optional()");
        },
        Kw::Many => {
            reveal_strlit("many");
            reveal_strlit(".many()");
        },
        Kw::Catch => {
            reveal_strlit("catch");
            reveal_strlit(".catch()");
        },
        Kw::Collect => {
            reveal_strlit("collect");
            reveal_strlit(".collect()");
        },
        Kw::Count => {
            reveal_strlit("count");
            reveal_strlit(".count()");
        },
        Kw::Anywhere => {
            reveal_strlit("anywhere");
            reveal_strlit(".anywhere()");
        },
        Kw::Adjacent => {
            reveal_strlit("adjacent");
            reveal_strlit(".adjacent()");
        },
        Kw::Strict => {
            reveal_strlit("strict");
            reveal_strlit(".strict()");
        },
        Kw::NonStrict => {
            reveal_strlit("non_strict");
            reveal_strlit(".non_strict()");
        },
        Kw::Hide => {
            reveal_strlit("hide");
            reveal_strlit(".hide()");
        },
        Kw::HideUsage => {
            reveal_strlit("hide_usage");
            reveal_strlit(".hide_usage()");
        },
        Kw::DebugFallback => {
            reveal_strlit("debug_fallback");
            reveal_strlit(".debug_fallback()");
        },
        Kw::DisplayFallback => {
            reveal_strlit("display_fallback");
            reveal_strlit(".display_fallback()");
        },
        Kw::Last => {
            reveal_strlit("last");
            reveal_strlit(".last()");
        },
        Kw::MapFn => {
            reveal_strlit("map");
            reveal_strlit(".map(");
        },
        Kw::Parse => {
            reveal_strlit("parse");
            reveal_strlit(".parse(");
        },
        Kw::SomeMsg => {
            reveal_strlit("some");
            reveal_strlit(".some(");
        },
        Kw::CustomUsage => {
            reveal_strlit("custom_usage");
            reveal_strlit(".custom_usage(");
        },
        Kw::FallbackWith => {
            reveal_strlit("fallback_with");
            reveal_strlit(".fallback_with(");
        },
        Kw::GroupHelp => {
            reveal_strlit("group_help");
            reveal_strlit(".group_help(");
        },
        Kw::FormatFallback => {
            reveal_strlit("format_fallback");
            reveal_strlit(".format_fallback(");
        },
        Kw::Complete => {
            reveal_strlit("complete");
            reveal_strlit(".complete(");
        },
        Kw::CompleteShell => {
            reveal_strlit("complete_shell");
            reveal_strlit(".complete_shell(");
        },
        _ => {},
    }
    let q = r->Ok_0.postpr.last();
    if bare_post_kw(k) {
        assert(post_code(parser, q) =~= parser + "."@ + w + "()"@);
    } else {
        assert(post_code(parser, q) =~= parser + "."@ + w + "("@ + payload_text(p) + ")"@);
    }
}

proof fn lemma_posts_code_last(parser: Seq<char>, ps: Seq<Post<Seq<char>>>)
    requires
        ps.len() > 0,
    ensures
        posts_code(parser, ps) == post_code(posts_code(parser, ps.drop_last()), ps.last()),
    decreases ps.len(),
{
    if ps.len() > 1 {
        lemma_posts_code_last(post_code(parser, ps[0]), ps.drop_first());
        assert(ps.drop_first().drop_last() =~= ps.drop_last().drop_first());
        assert(ps.drop_first().last() == ps.last());
        assert(ps.drop_last()[0] == ps[0]);
        assert(posts_code(parser, ps.drop_last()) == posts_code(
            post_code(parser, ps[0]),
            ps.drop_last().drop_first(),
        ));
    } else {
        assert(ps.drop_first().len() == 0);
        assert(ps.drop_last().len() == 0);
        assert(posts_code(post_code(parser, ps[0]), ps.drop_first()) == post_code(parser, ps[0]));
        assert(posts_code(parser, ps.drop_last()) == parser);
        assert(ps.last() == ps[0]);
    }
}

/// A field's parser ends with its last post-processing call: with any attributes
/// whose post-processing list is not empty, the field's code is some parser with that
/// last entry applied.
pub proof fn field_code_ends_with_last_post(b: Seq<char>, f: StructFieldSpec)
    requires
        f.attrs.postpr.len() > 0,
    ensures
        exists|x: Seq<char>| field_code(b, f) == post_code(x, f.attrs.postpr.last()),
{
    let ps = effective_posts(f);
    assert(ps.len() > 0 && ps.last() == f.attrs.postpr.last());
    let p0 = consumer_code(b, f);
    let p1 = match f.attrs.help {
        Option::Some(h) => if help_supported(f.attrs.consumer) {
            p0 + ".help("@ + string_literal(h) + ")"@
        } else {
            p0
        },
        Option::None => p0,
    };
    let p2 = match f.attrs.fallback {
        Option::Some(e) => p1 + ".fallback("@ + e + ")"@,
        Option::None => p1,
    };
    assert(field_code(b, f) == posts_code(p2, ps));
    lemma_posts_code_last(p2, ps);
    assert(field_code(b, f) == post_code(posts_code(p2, ps.drop_last()), f.attrs.postpr.last()));
}

/// When a field's attributes end with a post-processing keyword `w` that takes no
/// argument (such as `display_fallback` or `hide_usage`), the field's parser code ends
/// with `.w()`, whatever came before.
pub proof fn field_code_ends_with_bare_keyword(
    b: Seq<char>,
    f: StructFieldSpec,
    fa: FieldAttrsSpec,
    name: Seq<char>,
    w: Seq<char>,
    k: Kw,
    p: Payload<Seq<char>>,
)
    requires
        kw_of(w) == Option::Some(k),
        bare_post_kw(k),
        apply_field_item(fa, name, Inner { kw: Option::Some(k), payload: p }) == Result::<
            FieldAttrsSpec,
            DeriveError,
        >::Ok(f.attrs),
    ensures
        ({
            let c = field_code(b, f);
            let call = "."@ + w + "()"@;
            c.len() >= call.len() && c.subrange(c.len() - call.len(), c.len() as int) == call
        }),
{
    field_code_ends_with_last_post(b, f);
    let x = choose|x: Seq<char>| field_code(b, f) == post_code(x, f.attrs.postpr.last());
    post_keyword_calls_its_method(fa, name, w, k, p, x);
    let call = "."@ + w + "()"@;
    let c = field_code(b, f);
    assert(c =~= x + call);
    assert(c.subrange(c.len() - call.len(), c.len() as int) =~= call);
}

/// A boxed parser outside options mode is declared as `Box<dyn Parser<..>>`, and its
/// code ends with `.boxed()`, so the body has the type the signature declares; an
/// unboxed one is declared `impl Parser<..>` and is not boxed.
pub proof fn boxed_parser_matches_its_type(t: TopSpec, self_ty: Seq<char>)
    ensures
        ({
            let rt = return_type_of(t, self_ty);
            let c = mode_code(t);
            let boxed = ".boxed()"@;
            let bx = "Box<dyn "@;
            &&& (t.boxed && !(t.mode is Options)) ==> (rt.len() >= bx.len() && rt.subrange(0, bx.len() as int) == bx
                && c.len() >= boxed.len() && c.subrange(c.len() - boxed.len(), c.len() as int) == boxed)
            &&& (!t.boxed && !(t.mode is Options)) ==> rt.len() >= 5 && rt.subrange(0, 5) == "impl "@
        }),
{
    let rt = return_type_of(t, self_ty);
    let c = mode_code(t);
    let boxed = ".boxed()"@;
    let bx = "Box<dyn "@;
    if !(t.mode is Options) {
        if t.boxed {
            assert(rt.subrange(0, bx.len() as int) =~= bx);
            assert(c.subrange(c.len() - boxed.len(), c.len() as int) =~= boxed);
        } else {
            reveal_strlit("impl ");
            assert(rt.subrange(0, 5) =~= "impl "@);
        }
    }
}


/// The keywords of the item that set a text setting of the options.
pub open spec fn options_text_kw(k: Kw) -> bool {
    match k {
        Kw::Descr | Kw::Footer | Kw::Header | Kw::Usage | Kw::Version | Kw::MaxWidth => true,
        _ => false,
    }
}

/// The text setting of the options that a keyword names.
pub open spec fn options_setting(o: OptionsCfg<Seq<char>>, k: Kw) -> Option<Seq<char>> {
    match k {
        Kw::Descr => o.descr,
        Kw::Footer => o.footer,
        Kw::Header => o.header,
        Kw::Usage => o.usage,
        Kw::Version => o.version,
        Kw::MaxWidth => o.max_width,
        _ => Option::None,
    }
}

/// Reading `w(x)` on the item, for `w` one of `descr`, `footer`, `header`, `usage`,
/// `version` and `max_width`, sets the options' setting `w` to `x` and leaves every
/// other setting, and the rest of what was read, as it was; on options that had no
/// text setting yet, the options code then calls exactly `.w(x)`.
pub proof fn options_keyword_sets_its_own_setting(
    st: StructAttrStateSpec,
    w: Seq<char>,
    k: Kw,
    p: Payload<Seq<char>>,
    parser: Seq<char>,
)
    requires
        kw_of(w) == Option::Some(k),
        options_text_kw(k),
        st.options is Some,
    ensures
        ({
            let r = struct_item_effect(st, Inner { kw: Option::Some(k), payload: p });
            let o = st.options->0;
            let o2 = r->Ok_0.options->0;
            &&& r is Ok
            &&& r->Ok_0 == StructAttrStateSpec { options: r->Ok_0.options, ..st }
            &&& r->Ok_0.options is Some
            &&& options_setting(o2, k) == Option::Some(payload_text(p))
            &&& forall|j: Kw| #![auto] options_text_kw(j) && j != k ==> options_setting(o2, j) == options_setting(o, j)
            &&& o2.cargo_helper == o.cargo_helper
            &&& o2.fallback_usage == o.fallback_usage
            &&& (o == default_options() ==> options_code(parser, o2) == parser + "."@ + w + "("@ + payload_text(p)
                + ")"@)
        }),
{
    let r = struct_item_effect(st, Inner { kw: Option::Some(k), payload: p });
    let o2 = r->Ok_0.options->0;
    reveal_strlit(".");
    reveal_strlit("(");
    reveal_strlit(")");
    reveal_strlit("descr");
    reveal_strlit("footer");
    reveal_strlit("header");
    reveal_strlit("usage");
    reveal_strlit("version");
    reveal_strlit("max_width");
    if st.options->0 == default_options() {
        assert(options_code(parser, o2) =~= parser + "."@ + w + "("@ + payload_text(p) + ")"@);
    }
}

} // verus!
