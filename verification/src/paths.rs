//! Paths as sequences of components.
//!
//! The engine sees a filesystem path as a vector of components, each
//! component the bytes of one path segment. Mapping a source path to its
//! destination is then: strip the source-root prefix, join the remainder
//! onto the destination root.

use vstd::prelude::*;
use vstd::std_specs::cmp::PartialEqSpec;

verus! {

/// The mathematical value of a component vector: the sequence of its
/// components' byte sequences.
pub open spec fn path_view(v: Vec<Vec<u8>>) -> Seq<Seq<u8>> {
    Seq::new(v@.len(), |i: int| v@[i]@)
}

/// `pre` is a (not necessarily strict) leading prefix of `p`.
pub open spec fn is_prefix_of(pre: Seq<Seq<u8>>, p: Seq<Seq<u8>>) -> bool {
    pre.len() <= p.len() && p.subrange(0, pre.len() as int) == pre
}

/// Byte-wise equality of two path components.
fn component_eq(a: &Vec<u8>, b: &Vec<u8>) -> (r: bool)
    ensures
        r == (a@ == b@),
{
    let r = a == b;
    proof {
        if a.eq_spec(b) {
            assert(a@ =~= b@);
        }
    }
    r
}

/// Append a copy of component `c` to `acc`.
fn push_copy(acc: &mut Vec<Vec<u8>>, c: &Vec<u8>)
    ensures
        path_view(*final(acc)) == path_view(*old(acc)).push(c@),
{
    let part = c.clone();
    proof {
        assert(part@ =~= c@);
    }
    acc.push(part);
    proof {
        assert(path_view(*acc) =~= path_view(*old(acc)).push(c@));
    }
}

/// The path `path` with the leading prefix `root` removed, component by
/// component; `None` exactly when `root` is not a prefix of `path`.
pub fn strip_prefix(path: &Vec<Vec<u8>>, root: &Vec<Vec<u8>>) -> (r: Option<Vec<Vec<u8>>>)
    ensures
        r is Some <==> is_prefix_of(path_view(*root), path_view(*path)),
        r is Some ==> path_view(r.unwrap()) == path_view(*path).skip(root.len() as int),
{
    if root.len() > path.len() {
        return None;
    }
    let mut i: usize = 0;
    while i < root.len()
        invariant
            i <= root.len() <= path.len(),
            forall|j: int| 0 <= j < i ==> path_view(*path)[j] == path_view(*root)[j],
        decreases root.len() - i,
    {
        if !component_eq(&path[i], &root[i]) {
            proof {
                assert(path_view(*path).subrange(0, root.len() as int)[i as int]
                    != path_view(*root)[i as int]);
            }
            return None;
        }
        i = i + 1;
    }
    let mut rel: Vec<Vec<u8>> = Vec::new();
    let mut k: usize = root.len();
    while k < path.len()
        invariant
            root.len() <= k <= path.len(),
            path_view(rel) == path_view(*path).subrange(root.len() as int, k as int),
        decreases path.len() - k,
    {
        push_copy(&mut rel, &path[k]);
        proof {
            assert(path_view(*path).subrange(root.len() as int, k as int).push(
                path_view(*path)[k as int],
            ) =~= path_view(*path).subrange(root.len() as int, k as int + 1));
        }
        k = k + 1;
    }
    proof {
        assert(path_view(*path).subrange(0, root.len() as int) =~= path_view(*root));
        assert(path_view(rel) =~= path_view(*path).skip(root.len() as int));
    }
    Some(rel)
}

/// `root` with the components of `rel` appended: the destination path of a
/// file whose path relative to the source root is `rel`.
pub fn join_path(root: &Vec<Vec<u8>>, rel: &Vec<Vec<u8>>) -> (r: Vec<Vec<u8>>)
    ensures
        path_view(r) == path_view(*root) + path_view(*rel),
{
    let mut r: Vec<Vec<u8>> = Vec::new();
    let mut i: usize = 0;
    while i < root.len()
        invariant
            i <= root.len(),
            path_view(r) == path_view(*root).subrange(0, i as int),
        decreases root.len() - i,
    {
        push_copy(&mut r, &root[i]);
        proof {
            assert(path_view(*root).subrange(0, i as int).push(path_view(*root)[i as int])
                =~= path_view(*root).subrange(0, i as int + 1));
        }
        i = i + 1;
    }
    proof {
        assert(path_view(*root).subrange(0, root.len() as int) =~= path_view(*root));
    }
    let mut k: usize = 0;
    while k < rel.len()
        invariant
            k <= rel.len(),
            path_view(r) == path_view(*root) + path_view(*rel).subrange(0, k as int),
        decreases rel.len() - k,
    {
        push_copy(&mut r, &rel[k]);
        proof {
            assert((path_view(*root) + path_view(*rel).subrange(0, k as int)).push(
                path_view(*rel)[k as int],
            ) =~= path_view(*root) + path_view(*rel).subrange(0, k as int + 1));
        }
        k = k + 1;
    }
    proof {
        assert(path_view(*root) + path_view(*rel).subrange(0, rel.len() as int)
            =~= path_view(*root) + path_view(*rel));
    }
    r
}

/// The parent of a path: all components but the last; `None` for the empty
/// path, which has no parent.
pub fn parent_of(path: &Vec<Vec<u8>>) -> (r: Option<Vec<Vec<u8>>>)
    ensures
        r is Some <==> path.len() > 0,
        r is Some ==> path_view(r.unwrap()) == path_view(*path).take(path.len() - 1),
{
    if path.len() == 0 {
        return None;
    }
    let mut p: Vec<Vec<u8>> = Vec::new();
    let mut i: usize = 0;
    while i < path.len() - 1
        invariant
            path.len() > 0,
            i <= path.len() - 1,
            path_view(p) == path_view(*path).subrange(0, i as int),
        decreases path.len() - 1 - i,
    {
        push_copy(&mut p, &path[i]);
        proof {
            assert(path_view(*path).subrange(0, i as int).push(path_view(*path)[i as int])
                =~= path_view(*path).subrange(0, i as int + 1));
        }
        i = i + 1;
    }
    Some(p)
}

/// Stripping the source root off a path under it and joining the remainder
/// back onto the same root gives the path back: a path under the root is
/// determined by its relative remainder, so distinct source files map to
/// distinct destinations.
pub proof fn lemma_strip_join_roundtrip(root: Seq<Seq<u8>>, p: Seq<Seq<u8>>)
    requires
        is_prefix_of(root, p),
    ensures
        root + p.skip(root.len() as int) == p,
{
    assert(root + p.skip(root.len() as int) =~= p);
}

/// No two source files map to the same destination: two paths under the
/// source root whose relative remainders land on equal destination paths
/// are the same path.
pub proof fn lemma_dest_unique(
    root: Seq<Seq<u8>>,
    dst_root: Seq<Seq<u8>>,
    p1: Seq<Seq<u8>>,
    p2: Seq<Seq<u8>>,
)
    requires
        is_prefix_of(root, p1),
        is_prefix_of(root, p2),
        dst_root + p1.skip(root.len() as int) == dst_root + p2.skip(root.len() as int),
    ensures
        p1 == p2,
{
    let r1 = p1.skip(root.len() as int);
    let r2 = p2.skip(root.len() as int);
    assert(r1 =~= (dst_root + r1).skip(dst_root.len() as int));
    assert(r2 =~= (dst_root + r2).skip(dst_root.len() as int));
    lemma_strip_join_roundtrip(root, p1);
    lemma_strip_join_roundtrip(root, p2);
}

} // verus!
