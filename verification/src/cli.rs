//! The command surface: one subcommand, carrying the two roots.

use vstd::prelude::*;

verus! {

/// A parsed invocation: the one command the tool accepts.
pub struct Cli {
    pub command: Commands,
}

/// The commands of the tool. `Sync` copies every out-of-date regular file
/// under `src` to its relative path under `dst`.
pub enum Commands {
    Sync { src: String, dst: String },
}

} // verus!
