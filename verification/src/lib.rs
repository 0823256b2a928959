//! One-directional, incremental synchronization of a source directory tree
//! onto a destination tree.
//!
//! The library holds the decision logic of the sync engine: mapping a source
//! path to its destination path, deciding from size and modification time
//! whether a file needs copying, and the optimistic copy-with-recovery
//! protocol. The surrounding process (directory walking, metadata reads, the
//! copies themselves) performs the filesystem work and feeds the results back
//! in as plain values.

pub mod args;
pub mod backup;
pub mod cli;
pub mod model;
pub mod paths;
