//! Derive logic for the bpaf command line parser: reads the token trees of a
//! struct or enum definition with `#[bpaf(...)]` annotations and produces the
//! Rust code of a parser function.
#![allow(unused_imports)]

pub mod case;
pub mod tokens;
pub mod grammar;
pub mod error;
pub mod attrs;
pub mod literal;
pub mod mode;
pub mod top;
pub mod emit;
pub mod help;
pub mod usage;
