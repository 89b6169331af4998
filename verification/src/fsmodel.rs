//! A snapshot of the directory facts a run reads from disk: which directories
//! hold a version-control marker as a child, and what each chapter's joined
//! file path canonicalizes to. The caller gathers these facts once; every
//! decision taken over them is verified here.

use vstd::prelude::*;
use crate::paths::{path_clone, path_eq};

verus! {

/// One canonicalization fact: the raw joined path `key` resolves on disk to
/// the canonical absolute path `value`.
pub struct CanonEntry {
    pub key: Vec<String>,
    pub value: Vec<String>,
}

/// The directory facts a run works from. A path missing from `canon` is one
/// that does not canonicalize (no backing file on disk).
pub struct DirModel {
    /// Directories that contain the version-control marker directory.
    pub marked: Vec<Vec<String>>,
    /// Canonicalization results, searched front to back.
    pub canon: Vec<CanonEntry>,
}

/// The directory `p` contains the version-control marker.
pub open spec fn spec_marked(marked: Seq<Seq<Seq<char>>>, p: Seq<Seq<char>>) -> bool {
    marked.contains(p)
}

/// Whether the directory `p` contains the version-control marker.
pub fn is_marked(fs: &DirModel, p: &Vec<String>) -> (r: bool)
    ensures
        r == spec_marked(fs.marked.deep_view(), p.deep_view()),
{
    let mut i: usize = 0;
    while i < fs.marked.len()
        invariant
            i <= fs.marked@.len(),
            forall|k: int| 0 <= k < i ==> fs.marked.deep_view()[k] != p.deep_view(),
        decreases fs.marked.len() - i,
    {
        if path_eq(&fs.marked[i], p) {
            proof {
                assert(fs.marked.deep_view()[i as int] == p.deep_view());
            }
            return true;
        }
        proof {
            assert(fs.marked.deep_view()[i as int] == fs.marked@[i as int].deep_view());
        }
        i += 1;
    }
    proof {
        assert(forall|k: int|
            0 <= k < fs.marked.deep_view().len() ==> fs.marked.deep_view()[k] != p.deep_view());
    }
    false
}

/// What `key` canonicalizes to, by the first matching entry; nothing when no
/// entry matches (the path has no backing file).
pub open spec fn spec_canon_lookup(entries: Seq<CanonEntry>, key: Seq<Seq<char>>) -> Option<
    Seq<Seq<char>>,
>
    decreases entries.len(),
{
    if entries.len() == 0 {
        None
    } else if entries[0].key.deep_view() == key {
        Some(entries[0].value.deep_view())
    } else {
        spec_canon_lookup(entries.drop_first(), key)
    }
}

/// Looks `key` up in the canonicalization table.
pub fn canon_lookup(fs: &DirModel, key: &Vec<String>) -> (r: Option<Vec<String>>)
    ensures
        r.deep_view() == spec_canon_lookup(fs.canon@, key.deep_view()),
{
    let mut i: usize = 0;
    proof {
        assert(fs.canon@.skip(0) =~= fs.canon@);
    }
    while i < fs.canon.len()
        invariant
            i <= fs.canon@.len(),
            spec_canon_lookup(fs.canon@.skip(i as int), key.deep_view()) == spec_canon_lookup(
                fs.canon@,
                key.deep_view(),
            ),
        decreases fs.canon.len() - i,
    {
        proof {
            assert(fs.canon@.skip(i as int)[0] == fs.canon@[i as int]);
            assert(fs.canon@.skip(i as int).drop_first() =~= fs.canon@.skip(i as int + 1));
        }
        if path_eq(&fs.canon[i].key, key) {
            let v = path_clone(&fs.canon[i].value);
            proof {
                assert(v.deep_view() =~= fs.canon@[i as int].value.deep_view());
            }
            return Some(v);
        }
        i += 1;
    }
    proof {
        assert(fs.canon@.skip(fs.canon@.len() as int).len() == 0);
    }
    None
}

/// The working-tree root above `path`: the nearest ancestor (the path itself
/// included) that contains the version-control marker; nothing once the walk
/// reaches the filesystem root, which is never examined itself unless the
/// search started there.
pub open spec fn spec_find_git(path: Seq<Seq<char>>, marked: Seq<Seq<Seq<char>>>) -> Option<
    Seq<Seq<char>>,
>
    decreases path.len(),
{
    if spec_marked(marked, path) {
        Some(path)
    } else if path.len() <= 1 {
        None
    } else {
        spec_find_git(path.drop_last(), marked)
    }
}

/// Walks parent directories from `path` until one contains the
/// version-control marker, and returns that directory; the marker at `path`
/// itself is found in zero steps.
pub fn find_git(path: &Vec<String>, fs: &DirModel) -> (r: Option<Vec<String>>)
    ensures
        r.deep_view() == spec_find_git(path.deep_view(), fs.marked.deep_view()),
{
    let mut cur = path_clone(path);
    proof {
        assert(cur.deep_view() =~= path.deep_view());
    }
    loop
        invariant
            spec_find_git(cur.deep_view(), fs.marked.deep_view()) == spec_find_git(
                path.deep_view(),
                fs.marked.deep_view(),
            ),
        decreases cur.len(),
    {
        if is_marked(fs, &cur) {
            return Some(cur);
        }
        if cur.len() <= 1 {
            proof {
                assert(cur.deep_view().len() <= 1);
            }
            return None;
        }
        let ghost prev = cur.deep_view();
        cur.pop();
        proof {
            assert(cur.deep_view() =~= prev.drop_last());
        }
    }
}

} // verus!
