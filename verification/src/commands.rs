//! The command surface: what a caller asks the tool to do.
use vstd::prelude::*;

verus! {

/// A dump request: the path of the binary input file to inspect.
pub struct Dump {
    pub in_file: String,
}

/// The available subcommands.
pub enum SubCommand {
    Dump(Dump),
}

/// The whole command line: one subcommand.
pub struct MainCommand {
    pub subcmd: SubCommand,
}

} // verus!
