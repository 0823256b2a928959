//! Per-entry synchronization decisions: filtering, path mapping, change
//! detection, and the optimistic copy-with-recovery protocol.
//!
//! Each function here is one step of the linear decision sequence that a
//! worker applies to one enumerated filesystem entry. The surrounding
//! process performs the filesystem reads and writes between the steps and
//! hands their results back in as plain values.

use vstd::prelude::*;
use crate::paths::is_prefix_of;
use crate::paths::join_path;
use crate::paths::parent_of;
use crate::paths::path_view;
use crate::paths::strip_prefix;

verus! {

/// The metadata of a regular file that the sync decision reads: its byte
/// length and its last-modified time, in nanoseconds since the Unix epoch.
/// A file whose modification time cannot be read is given time `0`, the
/// earliest possible time.
#[derive(Clone, Copy, PartialEq, Eq, Structural, Debug)]
pub struct Meta {
    pub len: u64,
    pub mtime: u128,
}

/// When does a source file need copying onto a destination whose metadata is
/// `dst` (`None`: the destination is absent or its metadata unreadable)?
/// Absent destination: always. Different byte length: always. Equal length:
/// exactly when the source was modified strictly later.
pub open spec fn spec_should_copy(src: Meta, dst: Option<Meta>) -> bool {
    match dst {
        None => true,
        Some(d) => src.len != d.len || src.mtime > d.mtime,
    }
}

/// Decide whether the source file described by `src_meta` must be copied over
/// the destination described by `dst_meta` (`None` when the destination path
/// does not exist or its metadata could not be read).
pub fn should_copy(src_meta: &Meta, dst_meta: &Option<Meta>) -> (r: bool)
    ensures
        r == spec_should_copy(*src_meta, *dst_meta),
{
    match dst_meta {
        None => true,
        Some(d) => {
            if src_meta.len != d.len {
                // Fast check: a byte-length mismatch is decisive.
                true
            } else {
                // Slow check: copy only if the source is strictly newer.
                src_meta.mtime > d.mtime
            }
        },
    }
}

/// The classification of one filesystem node met during the walk.
#[derive(Clone, Copy, PartialEq, Eq, Structural, Debug)]
pub enum EntryKind {
    File,
    Dir,
    Other,
}

/// One item produced by the tree walk: either a node, with its kind, its
/// absolute path as components, and (for files) its metadata, where `None`
/// records that the metadata read failed; or the walk's own failure to read
/// part of the tree.
#[derive(Clone, PartialEq, Eq, Debug)]
pub enum WalkItem {
    Node { kind: EntryKind, path: Vec<Vec<u8>>, meta: Option<Meta> },
    ReadError,
}

/// Why synchronizing one entry was given up. Each failure stays confined to
/// its entry; the run goes on.
#[derive(Clone, Copy, PartialEq, Eq, Structural, Debug)]
pub enum SyncError {
    /// The walk itself failed to read this entry.
    WalkFailed,
    /// The entry's path does not begin with the source root.
    NotUnderRoot,
    /// The entry's own metadata could not be read.
    MetadataUnreadable,
}

/// What is to happen with one walked entry: nothing, a reported per-entry
/// failure, or a copy candidacy, carrying the destination path to examine
/// and the source metadata to compare against.
#[derive(Clone, PartialEq, Eq, Debug)]
pub enum EntryPlan {
    Skip,
    Fail(SyncError),
    Candidate { dest: Vec<Vec<u8>>, src_meta: Meta },
}

/// Decide what to do with one walked entry: errors from the walk fail the
/// entry; only regular files are candidates; a file's destination path is
/// its path relative to `src_root`, joined onto `dst_root`.
pub fn map_entry(item: &WalkItem, src_root: &Vec<Vec<u8>>, dst_root: &Vec<Vec<u8>>) -> (r:
    EntryPlan)
    ensures
        item is ReadError ==> r == EntryPlan::Fail(SyncError::WalkFailed),
        item matches WalkItem::Node { kind, path, meta } ==> ({
            let rooted = is_prefix_of(path_view(*src_root), path_view(*path));
            &&& kind != EntryKind::File ==> r == EntryPlan::Skip
            &&& (kind == EntryKind::File && !rooted) ==> r == EntryPlan::Fail(
                SyncError::NotUnderRoot,
            )
            &&& (kind == EntryKind::File && rooted && meta is None) ==> r == EntryPlan::Fail(
                SyncError::MetadataUnreadable,
            )
            &&& (kind == EntryKind::File && rooted && meta is Some) ==> (r
                matches EntryPlan::Candidate { dest, src_meta } && src_meta == meta.unwrap()
                && path_view(dest) == path_view(*dst_root) + path_view(*path).skip(
                src_root.len() as int,
            ))
        }),
{
    match item {
        WalkItem::ReadError => EntryPlan::Fail(SyncError::WalkFailed),
        WalkItem::Node { kind, path, meta } => {
            if *kind != EntryKind::File {
                return EntryPlan::Skip;
            }
            match strip_prefix(path, src_root) {
                None => EntryPlan::Fail(SyncError::NotUnderRoot),
                Some(rel) => {
                    match meta {
                        None => EntryPlan::Fail(SyncError::MetadataUnreadable),
                        Some(m) => {
                            let dest = join_path(dst_root, &rel);
                            EntryPlan::Candidate { dest, src_meta: *m }
                        },
                    }
                },
            }
        },
    }
}

/// How one attempt to copy the source file's bytes onto the destination path
/// ended, as the process reports it back: it succeeded, it failed because
/// part of the destination path was missing, or it failed for any other
/// reason.
#[derive(Clone, Copy, PartialEq, Eq, Structural, Debug)]
pub enum CopyOutcome {
    Copied,
    MissingPath,
    OtherError,
}

/// The next move after a first copy attempt: done; create the named
/// directory chain, then retry the copy exactly once; or give up on this
/// entry (the run goes on).
#[derive(Clone, PartialEq, Eq, Debug)]
pub enum CopyAction {
    Done,
    RetryAfterCreate { parent: Vec<Vec<u8>> },
    GiveUp,
}

/// Recovery decision of the optimistic copy: a copy that failed only because
/// the destination's parent chain was missing earns one retry, after that
/// chain is created; every other failure is final for this entry.
pub fn copy_recovery(outcome: &CopyOutcome, dest: &Vec<Vec<u8>>) -> (r: CopyAction)
    ensures
        *outcome == CopyOutcome::Copied ==> r == CopyAction::Done,
        *outcome == CopyOutcome::OtherError ==> r == CopyAction::GiveUp,
        (*outcome == CopyOutcome::MissingPath && dest.len() == 0) ==> r == CopyAction::GiveUp,
        (*outcome == CopyOutcome::MissingPath && dest.len() > 0) ==> (r
            matches CopyAction::RetryAfterCreate { parent } && path_view(parent) == path_view(
            *dest,
        ).take(dest.len() - 1)),
{
    match outcome {
        CopyOutcome::Copied => CopyAction::Done,
        CopyOutcome::OtherError => CopyAction::GiveUp,
        CopyOutcome::MissingPath => {
            match parent_of(dest) {
                None => CopyAction::GiveUp,
                Some(parent) => CopyAction::RetryAfterCreate { parent },
            }
        },
    }
}

} // verus!
