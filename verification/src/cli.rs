pub mod haskell;
pub mod rust;

use vstd::prelude::*;

verus! {

/// The parsed command line: one subcommand per invocation.
pub struct Cli {
    pub subcommand: SubCommands,
}

pub enum SubCommands {
    /// new or initialize a Rust project
    Rust(self::rust::Args),
    /// new or initialize a Haskell project
    Haskell(self::haskell::Args),
}

} // verus!
