//! The two root paths of one synchronization run, as handed in from the
//! command line.

use vstd::prelude::*;

verus! {

/// A pair of directory paths: the tree to read from and the tree to write
/// into. The command-line front end fills this in; the engine treats both as
/// opaque strings until they are canonicalized and split into components.
pub struct Args {
    /// Source directory.
    pub source: String,
    /// Destination directory.
    pub dest: String,
}

} // verus!
