//! Filesystem paths as sequences of components. An absolute path is its list
//! of components from the root downward; the root itself is the empty list.

use vstd::prelude::*;
use crate::host::str_eq;

verus! {

/// Clones a component path; the copy holds the same components.
pub fn path_clone(p: &Vec<String>) -> (r: Vec<String>)
    ensures
        r@ == p@,
{
    let mut out: Vec<String> = Vec::new();
    let mut i: usize = 0;
    while i < p.len()
        invariant
            i <= p.len(),
            out@ =~= p@.subrange(0, i as int),
        decreases p.len() - i,
    {
        out.push(p[i].clone());
        i += 1;
    }
    proof {
        assert(out@ =~= p@);
    }
    out
}

/// Concatenates two component paths, as joining a relative path onto a
/// directory does.
pub fn path_join(a: &Vec<String>, b: &Vec<String>) -> (r: Vec<String>)
    ensures
        r@ == a@ + b@,
{
    let mut out = path_clone(a);
    let mut i: usize = 0;
    while i < b.len()
        invariant
            i <= b.len(),
            out@ =~= a@ + b@.subrange(0, i as int),
        decreases b.len() - i,
    {
        out.push(b[i].clone());
        i += 1;
    }
    proof {
        assert(out@ =~= a@ + b@);
    }
    out
}

/// Component-for-component path equality.
pub fn path_eq(a: &Vec<String>, b: &Vec<String>) -> (r: bool)
    ensures
        r == (a.deep_view() == b.deep_view()),
{
    if a.len() != b.len() {
        proof {
            assert(a.deep_view().len() == a@.len());
            assert(b.deep_view().len() == b@.len());
        }
        return false;
    }
    let mut i: usize = 0;
    while i < a.len()
        invariant
            a@.len() == b@.len(),
            i <= a@.len(),
            forall|k: int| 0 <= k < i ==> a@[k]@ == b@[k]@,
        decreases a.len() - i,
    {
        if !str_eq(a[i].as_str(), b[i].as_str()) {
            proof {
                assert(a.deep_view()[i as int] == a@[i as int]@);
                assert(b.deep_view()[i as int] == b@[i as int]@);
            }
            return false;
        }
        i += 1;
    }
    proof {
        assert(a.deep_view() =~= b.deep_view());
    }
    true
}

/// `root` is a component-wise prefix of `p`.
pub open spec fn is_path_prefix(root: Seq<Seq<char>>, p: Seq<Seq<char>>) -> bool {
    root.len() <= p.len() && root == p.subrange(0, root.len() as int)
}

/// Strips `root` from the front of `p`: the path of `p` relative to `root`,
/// or nothing when `p` does not lie under `root`.
pub fn strip_prefix(root: &Vec<String>, p: &Vec<String>) -> (r: Option<Vec<String>>)
    ensures
        r is Some <==> is_path_prefix(root.deep_view(), p.deep_view()),
        r matches Some(rest) ==> rest.deep_view() == p.deep_view().skip(root.len() as int),
{
    if root.len() > p.len() {
        proof {
            assert(root.deep_view().len() == root@.len());
            assert(p.deep_view().len() == p@.len());
        }
        return None;
    }
    let mut i: usize = 0;
    while i < root.len()
        invariant
            root@.len() <= p@.len(),
            i <= root@.len(),
            forall|k: int| 0 <= k < i ==> root@[k]@ == p@[k]@,
        decreases root.len() - i,
    {
        if !str_eq(root[i].as_str(), p[i].as_str()) {
            proof {
                assert(is_path_prefix(root.deep_view(), p.deep_view()) ==> root.deep_view()[i as int]
                    == p.deep_view().subrange(0, root.deep_view().len() as int)[i as int]);
            }
            return None;
        }
        i += 1;
    }
    proof {
        assert(root.deep_view() =~= p.deep_view().subrange(0, root.deep_view().len() as int));
    }
    let mut rest: Vec<String> = Vec::new();
    let mut j: usize = root.len();
    while j < p.len()
        invariant
            root@.len() <= j <= p@.len(),
            rest@ =~= p@.subrange(root@.len() as int, j as int),
        decreases p.len() - j,
    {
        rest.push(p[j].clone());
        j += 1;
    }
    proof {
        assert(rest@ =~= p@.skip(root@.len() as int));
        assert(rest.deep_view() =~= p.deep_view().skip(root.len() as int));
    }
    Some(rest)
}

/// The components of a path joined with `/` separators, as a path is written
/// out in a URL.
pub open spec fn spec_join_slash(p: Seq<Seq<char>>) -> Seq<char>
    decreases p.len(),
{
    if p.len() == 0 {
        Seq::empty()
    } else if p.len() == 1 {
        p[0]
    } else {
        spec_join_slash(p.drop_last()) + "/"@ + p.last()
    }
}

/// Writes a component path with `/` separators.
pub fn join_slash(p: &Vec<String>) -> (r: String)
    ensures
        r@ == spec_join_slash(p.deep_view()),
{
    let mut out = String::new();
    let mut i: usize = 0;
    while i < p.len()
        invariant
            i <= p.len(),
            out@ == spec_join_slash(p.deep_view().subrange(0, i as int)),
        decreases p.len() - i,
    {
        proof {
            assert(p.deep_view().subrange(0, (i + 1) as int).drop_last() =~= p.deep_view().subrange(
                0,
                i as int,
            ));
            assert(p.deep_view().subrange(0, (i + 1) as int).last() == p@[i as int]@);
        }
        if i > 0 {
            out.append("/");
        } else {
            proof {
                assert(out@ =~= Seq::<char>::empty());
            }
        }
        out.append(p[i].as_str());
        proof {
            if i == 0 {
                assert(out@ =~= p.deep_view().subrange(0, 1)[0]);
            }
        }
        i += 1;
    }
    proof {
        assert(p.deep_view().subrange(0, p@.len() as int) =~= p.deep_view());
    }
    out
}

} // verus!
