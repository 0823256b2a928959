//! Whole-run scenarios, played out against an in-memory destination tree,
//! and tests of the path component functions.

use backup_sync::backup::EntryKind;
use backup_sync::backup::EntryPlan;
use backup_sync::backup::Meta;
use backup_sync::backup::WalkItem;
use backup_sync::backup::map_entry;
use backup_sync::backup::should_copy;
use backup_sync::paths::join_path;
use backup_sync::paths::parent_of;
use backup_sync::paths::strip_prefix;

fn parts(segments: &[&str]) -> Vec<Vec<u8>> {
    segments.iter().map(|s| s.as_bytes().to_vec()).collect()
}

/// The destination tree as the filesystem would hold it: files with their
/// metadata, keyed by absolute destination path.
type Tree = Vec<(Vec<Vec<u8>>, Meta)>;

fn lookup(tree: &Tree, path: &Vec<Vec<u8>>) -> Option<Meta> {
    tree.iter().find(|(p, _)| p == path).map(|(_, m)| *m)
}

fn store(tree: &mut Tree, path: Vec<Vec<u8>>, meta: Meta) {
    tree.retain(|(p, _)| *p != path);
    tree.push((path, meta));
}

/// Run the decision sequence over every source entry; copy where it says to,
/// stamping copies with `now`. Returns how many files were copied.
fn run(items: &[WalkItem], src_root: &Vec<Vec<u8>>, dst_root: &Vec<Vec<u8>>, dest: &mut Tree, now: u128) -> usize {
    let mut copied: usize = 0;
    for item in items {
        match map_entry(item, src_root, dst_root) {
            EntryPlan::Skip => {}
            EntryPlan::Fail(_) => {}
            EntryPlan::Candidate { dest: dest_path, src_meta } => {
                let dst_meta = lookup(dest, &dest_path);
                if should_copy(&src_meta, &dst_meta) {
                    store(dest, dest_path, Meta { len: src_meta.len, mtime: now });
                    copied += 1;
                }
            }
        }
    }
    copied
}

fn file(path: &[&str], len: u64, mtime: u128) -> WalkItem {
    WalkItem::Node { kind: EntryKind::File, path: parts(path), meta: Some(Meta { len, mtime }) }
}

#[test]
fn three_runs_over_a_small_tree() {
    let src_root = parts(&["", "s"]);
    let dst_root = parts(&["", "d"]);
    let mut dest: Tree = Vec::new();

    // Source tree: a.txt (10 bytes, t=100) and sub/b.txt (5 bytes, t=200).
    let items = [
        WalkItem::Node { kind: EntryKind::Dir, path: parts(&["", "s", "sub"]), meta: None },
        file(&["", "s", "a.txt"], 10, 100),
        file(&["", "s", "sub", "b.txt"], 5, 200),
    ];

    // First run against an empty destination: both files are copied, to
    // their relative paths, with their source lengths.
    let copied = run(&items, &src_root, &dst_root, &mut dest, 1_000);
    assert_eq!(copied, 2);
    assert_eq!(lookup(&dest, &parts(&["", "d", "a.txt"])).unwrap().len, 10);
    assert_eq!(lookup(&dest, &parts(&["", "d", "sub", "b.txt"])).unwrap().len, 5);

    // Second run, source unchanged: nothing is copied.
    let copied = run(&items, &src_root, &dst_root, &mut dest, 2_000);
    assert_eq!(copied, 0);

    // a.txt is rewritten to 12 bytes at t=300: the third run copies it and
    // only it.
    let items3 = [
        WalkItem::Node { kind: EntryKind::Dir, path: parts(&["", "s", "sub"]), meta: None },
        file(&["", "s", "a.txt"], 12, 300),
        file(&["", "s", "sub", "b.txt"], 5, 200),
    ];
    let copied = run(&items3, &src_root, &dst_root, &mut dest, 3_000);
    assert_eq!(copied, 1);
    assert_eq!(lookup(&dest, &parts(&["", "d", "a.txt"])).unwrap().len, 12);
    assert_eq!(lookup(&dest, &parts(&["", "d", "sub", "b.txt"])).unwrap().len, 5);
}

#[test]
fn failing_entry_leaves_the_others_copied() {
    let src_root = parts(&["", "s"]);
    let dst_root = parts(&["", "d"]);
    let mut dest: Tree = Vec::new();

    // One entry's metadata is unreadable; one walked subtree failed
    // outright. Every readable file is still copied.
    let items = [
        file(&["", "s", "a.txt"], 10, 100),
        WalkItem::Node { kind: EntryKind::File, path: parts(&["", "s", "broken"]), meta: None },
        WalkItem::ReadError,
        file(&["", "s", "sub", "b.txt"], 5, 200),
    ];
    let copied = run(&items, &src_root, &dst_root, &mut dest, 1_000);
    assert_eq!(copied, 2);
    assert!(lookup(&dest, &parts(&["", "d", "a.txt"])).is_some());
    assert!(lookup(&dest, &parts(&["", "d", "sub", "b.txt"])).is_some());
    assert!(lookup(&dest, &parts(&["", "d", "broken"])).is_none());
}

#[test]
fn empty_source_tree_is_a_successful_no_op() {
    let src_root = parts(&["", "s"]);
    let dst_root = parts(&["", "d"]);
    let mut dest: Tree = Vec::new();
    let copied = run(&[], &src_root, &dst_root, &mut dest, 1_000);
    assert_eq!(copied, 0);
    assert!(dest.is_empty());
}

#[test]
fn strip_prefix_removes_the_root() {
    let rel = strip_prefix(&parts(&["", "s", "sub", "b.txt"]), &parts(&["", "s"]));
    assert_eq!(rel, Some(parts(&["sub", "b.txt"])));
}

#[test]
fn strip_prefix_of_the_root_itself_is_empty() {
    let rel = strip_prefix(&parts(&["", "s"]), &parts(&["", "s"]));
    assert_eq!(rel, Some(Vec::new()));
}

#[test]
fn strip_prefix_rejects_a_non_prefix() {
    assert_eq!(strip_prefix(&parts(&["", "t", "a.txt"]), &parts(&["", "s"])), None);
    assert_eq!(strip_prefix(&parts(&[""]), &parts(&["", "s"])), None);
}

#[test]
fn strip_prefix_compares_whole_components() {
    // "su" is not a component-wise prefix of "sub".
    assert_eq!(strip_prefix(&parts(&["", "sub", "x"]), &parts(&["", "su"])), None);
}

#[test]
fn join_appends_the_relative_path() {
    let joined = join_path(&parts(&["", "d"]), &parts(&["sub", "b.txt"]));
    assert_eq!(joined, parts(&["", "d", "sub", "b.txt"]));
    let same = join_path(&parts(&["", "d"]), &Vec::new());
    assert_eq!(same, parts(&["", "d"]));
}

#[test]
fn parent_drops_the_last_component() {
    assert_eq!(parent_of(&parts(&["", "d", "a.txt"])), Some(parts(&["", "d"])));
    assert_eq!(parent_of(&parts(&["a.txt"])), Some(Vec::new()));
    assert_eq!(parent_of(&Vec::new()), None);
}
