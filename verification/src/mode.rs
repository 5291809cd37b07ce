//! Mode configuration structures
//!
//! This module defines the mode-specific configuration structs that control
//! how parsers are generated for different modes (Options, Command, Parser).
//! Help texts and expressions are held as Rust code text.
use crate::attrs::ov;
use crate::grammar::texts_view;
use vstd::prelude::*;

verus! {

/// Configuration for Command mode
///
/// Used when `#[bpaf(command, ...)]` is specified at the top level.
pub struct CommandCfg {
    /// Custom command name (if specified with `command("name")`)
    pub name: Option<String>,
    /// Long aliases for the command (from `long("alias")`)
    pub long: Vec<String>,
    /// Short aliases for the command (from `short('a')`)
    pub short: Vec<char>,
    /// Help text for the command (from `help(...)`), as code
    pub help: Option<String>,
}

/// The value of a [`CommandCfg`].
pub struct CommandCfgSpec {
    pub name: Option<Seq<char>>,
    pub long: Seq<Seq<char>>,
    pub short: Seq<char>,
    pub help: Option<Seq<char>>,
}

impl View for CommandCfg {
    type V = CommandCfgSpec;

    open spec fn view(&self) -> CommandCfgSpec {
        CommandCfgSpec {
            name: ov(self.name),
            long: texts_view(self.long@),
            short: self.short@,
            help: ov(self.help),
        }
    }
}

/// Configuration for Options mode
///
/// Used when `#[bpaf(options, ...)]` or `#[bpaf(command, ...)]` is specified.
/// Options mode adds `.to_options()` wrapper which provides help/version handling.
pub struct OptionsCfg<S = String> {
    /// Cargo helper name (from `cargo_helper("name")`)
    pub cargo_helper: Option<S>,
    /// Parser description (from `descr(...)`)
    pub descr: Option<S>,
    /// Footer text (from `footer(...)`)
    pub footer: Option<S>,
    /// Header text (from `header(...)`)
    pub header: Option<S>,
    /// Custom usage line (from `usage(...)`)
    pub usage: Option<S>,
    /// Version information (from `version(...)`)
    pub version: Option<S>,
    /// Maximum help text width (from `max_width(...)`)
    pub max_width: Option<S>,
    /// Show usage on parse errors (from `fallback_to_usage`)
    pub fallback_usage: bool,
}

impl View for OptionsCfg<String> {
    type V = OptionsCfg<Seq<char>>;

    open spec fn view(&self) -> OptionsCfg<Seq<char>> {
        OptionsCfg {
            cargo_helper: ov(self.cargo_helper),
            descr: ov(self.descr),
            footer: ov(self.footer),
            header: ov(self.header),
            usage: ov(self.usage),
            version: ov(self.version),
            max_width: ov(self.max_width),
            fallback_usage: self.fallback_usage,
        }
    }
}

/// Configuration for Parser mode
///
/// Used when neither `options` nor `command` is specified (default mode).
pub struct ParserCfg<S = String> {
    /// Group help text (from `group_help(...)`)
    pub group_help: Option<S>,
}

impl View for ParserCfg<String> {
    type V = ParserCfg<Seq<char>>;

    open spec fn view(&self) -> ParserCfg<Seq<char>> {
        ParserCfg { group_help: ov(self.group_help) }
    }
}

/// Parser generation mode
pub enum Mode {
    /// Command mode: generates a command parser with options support
    Command {
        /// Command-specific configuration
        command: CommandCfg,
        /// Options configuration (commands include options support)
        options: OptionsCfg,
    },
    /// Options mode: generates an options parser with help/version
    Options {
        /// Options configuration
        options: OptionsCfg,
    },
    /// Parser mode: generates a basic parser without options wrapper
    Parser {
        /// Parser configuration
        parser: ParserCfg,
    },
}

/// The value of a [`Mode`].
pub enum ModeSpec {
    Command { command: CommandCfgSpec, options: OptionsCfg<Seq<char>> },
    Options { options: OptionsCfg<Seq<char>> },
    Parser { parser: ParserCfg<Seq<char>> },
}

impl View for Mode {
    type V = ModeSpec;

    open spec fn view(&self) -> ModeSpec {
        match self {
            Mode::Command { command, options } => ModeSpec::Command {
                command: command@,
                options: options@,
            },
            Mode::Options { options } => ModeSpec::Options { options: options@ },
            Mode::Parser { parser } => ModeSpec::Parser { parser: parser@ },
        }
    }
}

pub open spec fn default_options() -> OptionsCfg<Seq<char>> {
    OptionsCfg {
        cargo_helper: Option::None,
        descr: Option::None,
        footer: Option::None,
        header: Option::None,
        usage: Option::None,
        version: Option::None,
        max_width: Option::None,
        fallback_usage: false,
    }
}

pub open spec fn default_mode() -> ModeSpec {
    ModeSpec::Parser { parser: ParserCfg { group_help: Option::None } }
}

impl OptionsCfg<Seq<char>> {
    /// The same options with the given description.
    pub open spec fn with_descr(self, t: Seq<char>) -> Self {
        OptionsCfg { descr: Option::Some(t), ..self }
    }

    /// The same options with the given footer.
    pub open spec fn with_footer(self, t: Seq<char>) -> Self {
        OptionsCfg { footer: Option::Some(t), ..self }
    }

    /// The same options with the given header.
    pub open spec fn with_header(self, t: Seq<char>) -> Self {
        OptionsCfg { header: Option::Some(t), ..self }
    }

    /// The same options with the given usage line.
    pub open spec fn with_usage(self, t: Seq<char>) -> Self {
        OptionsCfg { usage: Option::Some(t), ..self }
    }

    /// The same options with the given version.
    pub open spec fn with_version(self, t: Seq<char>) -> Self {
        OptionsCfg { version: Option::Some(t), ..self }
    }

    /// The same options with the given maximal width.
    pub open spec fn with_max_width(self, t: Seq<char>) -> Self {
        OptionsCfg { max_width: Option::Some(t), ..self }
    }

    /// The same options with the given cargo helper.
    pub open spec fn with_cargo_helper(self, t: Seq<char>) -> Self {
        OptionsCfg { cargo_helper: Option::Some(t), ..self }
    }

    /// The same options, showing the usage on errors.
    pub open spec fn with_fallback_usage(self) -> Self {
        OptionsCfg { fallback_usage: true, ..self }
    }
}

impl CommandCfgSpec {
    /// The same command with one more short alias.
    pub open spec fn push_short(self, c: char) -> Self {
        CommandCfgSpec { short: self.short.push(c), ..self }
    }

    /// The same command with one more long alias.
    pub open spec fn push_long(self, l: Seq<char>) -> Self {
        CommandCfgSpec { long: self.long.push(l), ..self }
    }

    /// The same command with the given help.
    pub open spec fn with_help(self, h: Seq<char>) -> Self {
        CommandCfgSpec { help: Option::Some(h), ..self }
    }
}

impl OptionsCfg {
    /// No option set.
    pub fn new() -> (r: OptionsCfg)
        ensures
            r@ == default_options(),
    {
        OptionsCfg {
            cargo_helper: Option::None,
            descr: Option::None,
            footer: Option::None,
            header: Option::None,
            usage: Option::None,
            version: Option::None,
            max_width: Option::None,
            fallback_usage: false,
        }
    }
}

impl Default for Mode {
    /// Parser mode without group help.
    fn default() -> (r: Mode)
        ensures
            r@ == default_mode(),
    {
        Mode::Parser { parser: ParserCfg { group_help: Option::None } }
    }
}


/// Helper function to apply a change to OptionsCfg if it exists
pub fn with_options<F: FnOnce(&mut OptionsCfg)>(options: &mut Option<OptionsCfg>, f: F)
    requires
        forall|o: &mut OptionsCfg| f.requires((o,)),
    ensures
        *old(options) is None ==> *final(options) is None,
        *old(options) is Some ==> exists|r: &mut OptionsCfg|
            *r == old(options)->0 && f.ensures((r,), ()) && *final(options) == Option::Some(*final(r)),
{
    if let Option::Some(opts) = options.as_mut() {
        f(opts);
    }
}


/// Helper function to apply a change to ParserCfg if it exists
pub fn with_parser<F: FnOnce(&mut ParserCfg)>(parser: &mut Option<ParserCfg>, f: F)
    requires
        forall|p: &mut ParserCfg| f.requires((p,)),
    ensures
        *old(parser) is None ==> *final(parser) is None,
        *old(parser) is Some ==> exists|r: &mut ParserCfg|
            *r == old(parser)->0 && f.ensures((r,), ()) && *final(parser) == Option::Some(*final(r)),
{
    if let Option::Some(p) = parser.as_mut() {
        f(p);
    }
}

/// Helper function to apply a change to CommandCfg if it exists
pub fn with_command<F: FnOnce(&mut CommandCfg)>(command: &mut Option<CommandCfg>, f: F)
    requires
        forall|c: &mut CommandCfg| f.requires((c,)),
    ensures
        *old(command) is None ==> *final(command) is None,
        *old(command) is Some ==> exists|r: &mut CommandCfg|
            *r == old(command)->0 && f.ensures((r,), ()) && *final(command) == Option::Some(*final(r)),
{
    if let Option::Some(cmd) = command.as_mut() {
        f(cmd);
    }
}
} // verus!
