//! Help text as written into the generated code: a custom expression, or a string
//! taken from doc comments.
use crate::literal::{quote_str, string_literal};
use crate::tokens::copy_text;
use vstd::prelude::*;

verus! {

/// Represents help text for parsers, options, and commands
///
/// Help text can come from two sources:
/// 1. Doc comments (`/// ...`) which become `Help::Doc`
/// 2. Explicit help expressions like `help(CONST)` which become `Help::Custom`
pub enum Help {
    /// A custom expression provided by the user, as code
    /// Examples: `help(MY_CONST)`, `help(format!("v{}", VERSION))`
    Custom(String),
    /// A string, typically from doc comments
    Doc(String),
}

/// The value of a [`Help`].
pub enum HelpSpec {
    Custom(Seq<char>),
    Doc(Seq<char>),
}

impl View for Help {
    type V = HelpSpec;

    open spec fn view(&self) -> HelpSpec {
        match self {
            Help::Custom(c) => HelpSpec::Custom(c@),
            Help::Doc(d) => HelpSpec::Doc(d@),
        }
    }
}

/// The code that stands for the help text: the expression itself, or the string as a
/// literal.
pub open spec fn help_code(h: HelpSpec) -> Seq<char> {
    match h {
        HelpSpec::Custom(c) => c,
        HelpSpec::Doc(d) => string_literal(d),
    }
}

impl Help {
    /// The code that stands for this help text.
    pub fn to_code(&self) -> (r: String)
        ensures
            r@ == help_code(self@),
    {
        match self {
            Help::Custom(c) => copy_text(c.as_str()),
            Help::Doc(d) => quote_str(d.as_str()),
        }
    }
}

impl<'a> From<&'a str> for Help {
    /// A string becomes help text from documentation.
    fn from(value: &'a str) -> (r: Help)
        ensures
            r@ == HelpSpec::Doc(value@),
    {
        Help::Doc(copy_text(value))
    }
}

impl<'a> vstd::std_specs::convert::FromSpecImpl<&'a str> for Help {
    /// A `String` is not determined by its text in specifications, so no value is named.
    open spec fn obeys_from_spec() -> bool {
        false
    }

    open spec fn from_spec(value: &'a str) -> Help {
        Help::Doc(arbitrary())
    }
}

impl From<String> for Help {
    /// A string becomes help text from documentation.
    fn from(value: String) -> (r: Help)
        ensures
            r@ == HelpSpec::Doc(value@),
    {
        Help::Doc(value)
    }
}

impl vstd::std_specs::convert::FromSpecImpl<String> for Help {
    open spec fn obeys_from_spec() -> bool {
        true
    }

    open spec fn from_spec(value: String) -> Help {
        Help::Doc(value)
    }
}

} // verus!
