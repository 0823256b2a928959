//! A whole run, mathematically.
//!
//! A tree of regular files is a map from relative paths (sequences of
//! component byte sequences) to file metadata. One run visits every source
//! file independently, copies it exactly when [`spec_should_copy`] says so,
//! and tolerates per-entry failure; `run_result` is the destination tree it
//! leaves behind. The laws proved here say what any such run guarantees:
//! completeness, idempotence, isolation of failures, and presence of every
//! copied file's parent directory chain.

use vstd::prelude::*;
use crate::backup::Meta;
use crate::backup::spec_should_copy;

verus! {

/// The destination's metadata at path `p`, as the change-detection decision
/// sees it: `None` when no file is there.
pub open spec fn dst_lookup(dst: Map<Seq<Seq<u8>>, Meta>, p: Seq<Seq<u8>>) -> Option<Meta> {
    if dst.dom().contains(p) {
        Some(dst[p])
    } else {
        None
    }
}

/// Whether the run copies the source file at `p`: it must need copying, and
/// its entry must not be one of the failed ones.
pub open spec fn copies(
    src: Map<Seq<Seq<u8>>, Meta>,
    dst: Map<Seq<Seq<u8>>, Meta>,
    failed: Set<Seq<Seq<u8>>>,
    p: Seq<Seq<u8>>,
) -> bool {
    src.dom().contains(p) && spec_should_copy(src[p], dst_lookup(dst, p))
        && !failed.contains(p)
}

/// The destination tree after one run of the engine over source tree `src`
/// and prior destination tree `dst`. A copied file takes the source's byte
/// length and is stamped with the wall-clock time of its copy, `times[p]`;
/// `failed` holds the paths whose entries failed (walk error, unreadable
/// metadata, failed copy) and were skipped without affecting the rest.
pub open spec fn run_result(
    src: Map<Seq<Seq<u8>>, Meta>,
    dst: Map<Seq<Seq<u8>>, Meta>,
    times: Map<Seq<Seq<u8>>, u128>,
    failed: Set<Seq<Seq<u8>>>,
) -> Map<Seq<Seq<u8>>, Meta> {
    Map::new(
        |p: Seq<Seq<u8>>| dst.dom().contains(p) || copies(src, dst, failed, p),
        |p: Seq<Seq<u8>>|
            if copies(src, dst, failed, p) {
                Meta { len: src[p].len, mtime: times[p] }
            } else {
                dst[p]
            },
    )
}

/// Completeness: after a run in which no entry failed, every regular file of
/// the source tree has a file at its relative path in the destination tree.
pub proof fn lemma_completeness(
    src: Map<Seq<Seq<u8>>, Meta>,
    dst: Map<Seq<Seq<u8>>, Meta>,
    times: Map<Seq<Seq<u8>>, u128>,
)
    ensures
        forall|p: Seq<Seq<u8>>|
            src.dom().contains(p) ==> #[trigger] run_result(
                src,
                dst,
                times,
                Set::empty(),
            ).dom().contains(p),
{
    assert forall|p: Seq<Seq<u8>>| src.dom().contains(p) implies #[trigger] run_result(
        src,
        dst,
        times,
        Set::empty(),
    ).dom().contains(p) by {
        if !spec_should_copy(src[p], dst_lookup(dst, p)) {
            // A file that needs no copy can only be one the destination
            // already has: an absent destination always needs a copy.
            assert(dst.dom().contains(p));
        }
    }
}

/// Idempotence: a second run over an unchanged source copies nothing. The
/// one proviso is that each copy of the first run was stamped no earlier
/// than its source's modification time, as a clock that does not run behind
/// the source tree's timestamps guarantees.
pub proof fn lemma_idempotence(
    src: Map<Seq<Seq<u8>>, Meta>,
    dst: Map<Seq<Seq<u8>>, Meta>,
    times: Map<Seq<Seq<u8>>, u128>,
)
    requires
        forall|p: Seq<Seq<u8>>|
            src.dom().contains(p) ==> src[p].mtime <= #[trigger] times[p],
    ensures
        forall|p: Seq<Seq<u8>>|
            src.dom().contains(p) ==> !spec_should_copy(
                src[p],
                dst_lookup(#[trigger] run_result(src, dst, times, Set::empty()), p),
            ),
{
    assert forall|p: Seq<Seq<u8>>| src.dom().contains(p) implies !spec_should_copy(
        src[p],
        dst_lookup(#[trigger] run_result(src, dst, times, Set::empty()), p),
    ) by {
        let after = run_result(src, dst, times, Set::empty());
        if copies(src, dst, Set::empty(), p) {
            // Copied: the destination now has the source's length and a
            // timestamp at least the source's.
            assert(after[p] == Meta { len: src[p].len, mtime: times[p] });
        } else {
            // Not copied: the destination already matched in length and was
            // no older than the source.
            assert(after[p] == dst[p]);
        }
    }
}

/// Idempotence, stated on the trees: under the same proviso, a second run
/// over the unchanged source leaves the destination tree exactly as the
/// first run left it, whatever times the second run's clock would have
/// stamped.
pub proof fn lemma_second_run_changes_nothing(
    src: Map<Seq<Seq<u8>>, Meta>,
    dst: Map<Seq<Seq<u8>>, Meta>,
    times: Map<Seq<Seq<u8>>, u128>,
    times2: Map<Seq<Seq<u8>>, u128>,
)
    requires
        forall|p: Seq<Seq<u8>>|
            src.dom().contains(p) ==> src[p].mtime <= #[trigger] times[p],
    ensures
        run_result(src, run_result(src, dst, times, Set::empty()), times2, Set::empty())
            == run_result(src, dst, times, Set::empty()),
{
    let after = run_result(src, dst, times, Set::empty());
    lemma_idempotence(src, dst, times);
    assert(run_result(src, after, times2, Set::empty()) =~= after);
}

/// Isolation of failures: a failing entry leaves every other entry exactly
/// as a failure-free run leaves it. Here: whatever set of entries failed,
/// each non-failing path ends in the same state as in the run in which
/// nothing failed.
pub proof fn lemma_failure_isolation(
    src: Map<Seq<Seq<u8>>, Meta>,
    dst: Map<Seq<Seq<u8>>, Meta>,
    times: Map<Seq<Seq<u8>>, u128>,
    failed: Set<Seq<Seq<u8>>>,
)
    ensures
        forall|p: Seq<Seq<u8>>|
            !failed.contains(p) ==> dst_lookup(#[trigger] run_result(src, dst, times, failed), p)
                == dst_lookup(run_result(src, dst, times, Set::empty()), p),
{
}

/// The directories a tree of files occupies: every strict prefix of some
/// file's path.
pub open spec fn dirs_of(m: Map<Seq<Seq<u8>>, Meta>) -> Set<Seq<Seq<u8>>> {
    Set::new(
        |d: Seq<Seq<u8>>|
            exists|p: Seq<Seq<u8>>|
                #[trigger] m.dom().contains(p) && d.len() < p.len() && p.take(d.len() as int)
                    == d,
    )
}

/// Directory auto-creation: a file the run copies ends up under its full
/// parent directory chain — after the run, every strict prefix of its path
/// is a directory of the destination tree.
pub proof fn lemma_dir_creation(
    src: Map<Seq<Seq<u8>>, Meta>,
    dst: Map<Seq<Seq<u8>>, Meta>,
    times: Map<Seq<Seq<u8>>, u128>,
    p: Seq<Seq<u8>>,
)
    requires
        copies(src, dst, Set::empty(), p),
    ensures
        forall|k: int|
            0 <= k < p.len() ==> dirs_of(run_result(src, dst, times, Set::empty())).contains(
                #[trigger] p.take(k),
            ),
{
    let after = run_result(src, dst, times, Set::empty());
    assert forall|k: int| 0 <= k < p.len() implies dirs_of(after).contains(
        #[trigger] p.take(k),
    ) by {
        assert(after.dom().contains(p));
        assert(p.take(k).len() == k);
    }
}

} // verus!
