//! Why a derive input is refused.
use crate::tokens::copy_text;
use vstd::prelude::*;

verus! {

/// A refused derive input; `message` gives the text of the compile error.
#[derive(Clone, Copy, PartialEq, Eq, Structural, Debug)]
pub enum DeriveError {
    /// `flag(...)` without two comma-separated arguments
    FlagArgs,
    /// `guard(...)` without two comma-separated arguments
    GuardArgs,
    /// `any(...)` without a string literal, a comma and a check function
    AnyArgs,
    /// an item of a field's `#[bpaf(...)]` that is not understood
    UnknownAttribute,
    /// two `command` items on one enum variant
    MultipleCommands,
    /// the annotated item is neither a struct nor an enum
    NotStructOrEnum,
    /// no name after `struct` / `enum`
    MissingName,
    /// no `{ ... }` body and no `;` after the name
    MissingBody,
    /// an enum without variants
    EmptyEnum,
    /// a positional field that also has a `short`, `long` or `env` name
    PositionalWithName,
}

pub open spec fn error_message(e: DeriveError) -> Seq<char> {
    match e {
        DeriveError::FlagArgs => "Parser failed: flag() requires exactly 2 comma-separated arguments (present value, absent value)"@,
        DeriveError::GuardArgs => "Parser failed: guard() requires exactly 2 comma-separated arguments (check_fn, error_message)"@,
        DeriveError::AnyArgs => "Parser failed: any() requires a string literal for metavar and a check function: any(\"METAVAR\", check_fn)"@,
        DeriveError::UnknownAttribute => "Unexpected token: expecting bpaf_unsynn::attrs::FieldAttrs"@,
        DeriveError::MultipleCommands => "Parser failed: Multiple 'command' attributes are not allowed. Use 'short' and 'long' for command aliases."@,
        DeriveError::NotStructOrEnum => "Parser failed: Only structs and enums are supported"@,
        DeriveError::MissingName => "Unexpected token: expecting proc_macro2::Ident"@,
        DeriveError::MissingBody => "Unexpected token: expecting proc_macro2::TokenTree"@,
        DeriveError::EmptyEnum => "Parser failed: Enums must have at least one variant"@,
        DeriveError::PositionalWithName => "Parser failed: a positional field cannot also have short, long or env names"@,
    }
}

impl DeriveError {
    /// The text of the compile error for this refusal.
    pub fn message(&self) -> (r: String)
        ensures
            r@ == error_message(*self),
    {
        match self {
            DeriveError::FlagArgs => copy_text("Parser failed: flag() requires exactly 2 comma-separated arguments (present value, absent value)"),
            DeriveError::GuardArgs => copy_text("Parser failed: guard() requires exactly 2 comma-separated arguments (check_fn, error_message)"),
            DeriveError::AnyArgs => copy_text("Parser failed: any() requires a string literal for metavar and a check function: any(\"METAVAR\", check_fn)"),
            DeriveError::UnknownAttribute => copy_text("Unexpected token: expecting bpaf_unsynn::attrs::FieldAttrs"),
            DeriveError::MultipleCommands => copy_text("Parser failed: Multiple 'command' attributes are not allowed. Use 'short' and 'long' for command aliases."),
            DeriveError::NotStructOrEnum => copy_text("Parser failed: Only structs and enums are supported"),
            DeriveError::MissingName => copy_text("Unexpected token: expecting proc_macro2::Ident"),
            DeriveError::MissingBody => copy_text("Unexpected token: expecting proc_macro2::TokenTree"),
            DeriveError::EmptyEnum => copy_text("Parser failed: Enums must have at least one variant"),
            DeriveError::PositionalWithName => copy_text("Parser failed: a positional field cannot also have short, long or env names"),
        }
    }
}

} // verus!
