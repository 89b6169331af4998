//! Hosting-provider detection: which source-control host a repository URL
//! belongs to, and the policy that lets explicit configuration override
//! URL-based inference.

use vstd::prelude::*;
use vstd::string::StrSliceExecFns;

verus! {

/// The hosting providers whose edit-link conventions are understood.
#[derive(Clone, Copy, Debug, PartialEq, Eq, Structural)]
pub enum Host {
    GitHub,
    GitLab,
}

/// The URL path fragment a host uses for its in-browser edit page.
pub open spec fn spec_edit_fragment(h: Host) -> Seq<char> {
    match h {
        Host::GitHub => "edit"@,
        Host::GitLab => "-/edit"@,
    }
}

/// Maps a host to the URL path fragment of its edit page.
pub fn host_to_edit_uri_fragment(source_control_host: &Host) -> (r: &'static str)
    ensures
        r@ == spec_edit_fragment(*source_control_host),
{
    match source_control_host {
        Host::GitHub => "edit",
        Host::GitLab => "-/edit",
    }
}

/// The needle `n` occurs in `h` starting at position `i`.
pub open spec fn contains_at(h: Seq<char>, n: Seq<char>, i: int) -> bool {
    0 <= i && i + n.len() <= h.len() && h.subrange(i, i + n.len()) == n
}

/// The needle `n` occurs somewhere in `h`.
pub open spec fn seq_contains(h: Seq<char>, n: Seq<char>) -> bool {
    exists|i: int| contains_at(h, n, i)
}

/// Whether `n` occurs in `h` starting exactly at character position `i`.
fn match_at(h: &str, n: &str, i: usize) -> (r: bool)
    requires
        i + n@.len() <= h@.len(),
    ensures
        r == contains_at(h@, n@, i as int),
{
    let hlen = h.unicode_len();
    let nlen = n.unicode_len();
    let mut j: usize = 0;
    while j < nlen
        invariant
            hlen == h@.len(),
            nlen == n@.len(),
            i + nlen <= h@.len(),
            j <= nlen,
            forall|k: int| 0 <= k < j ==> h@[i + k] == n@[k],
        decreases nlen - j,
    {
        if h.get_char(i + j) != n.get_char(j) {
            proof {
                assert(contains_at(h@, n@, i as int) ==> h@.subrange(
                    i as int,
                    i + n@.len(),
                )[j as int] == n@[j as int]);
            }
            return false;
        }
        j += 1;
    }
    proof {
        assert(h@.subrange(i as int, i + n@.len()) =~= n@);
    }
    true
}

/// Plain-text substring search: whether `n` occurs anywhere in `h`.
pub fn contains_str(h: &str, n: &str) -> (r: bool)
    ensures
        r == seq_contains(h@, n@),
{
    let hlen = h.unicode_len();
    let nlen = n.unicode_len();
    if nlen > hlen {
        return false;
    }
    if nlen == 0 {
        proof {
            assert(h@.subrange(0, 0) =~= n@);
            assert(contains_at(h@, n@, 0));
        }
        return true;
    }
    let mut i: usize = 0;
    while i <= hlen - nlen
        invariant
            hlen == h@.len(),
            nlen == n@.len(),
            1 <= nlen <= hlen,
            i <= hlen - nlen + 1,
            forall|ii: int| 0 <= ii < i ==> !contains_at(h@, n@, ii),
        decreases hlen - nlen - i + 1,
    {
        if match_at(h, n, i) {
            return true;
        }
        i += 1;
    }
    proof {
        assert forall|ii: int| !contains_at(h@, n@, ii) by {
            if 0 <= ii < i {
            } else {
                assert(ii < 0 || ii + n@.len() > h@.len());
            }
        }
    }
    false
}

/// Character-for-character string equality.
pub fn str_eq(a: &str, b: &str) -> (r: bool)
    ensures
        r == (a@ == b@),
{
    let alen = a.unicode_len();
    let blen = b.unicode_len();
    if alen != blen {
        return false;
    }
    let mut i: usize = 0;
    while i < alen
        invariant
            alen == a@.len(),
            alen == b@.len(),
            i <= alen,
            forall|k: int| 0 <= k < i ==> a@[k] == b@[k],
        decreases alen - i,
    {
        if a.get_char(i) != b.get_char(i) {
            return false;
        }
        i += 1;
    }
    proof {
        assert(a@ =~= b@);
    }
    true
}

/// The host a repository URL points at, by substring inference alone.
pub open spec fn spec_url_host(url: Seq<char>) -> Option<Host> {
    if seq_contains(url, "github.com"@) {
        Some(Host::GitHub)
    } else if seq_contains(url, "gitlab.com"@) {
        Some(Host::GitLab)
    } else {
        None
    }
}

/// Infers the host from the repository URL as plain text: GitHub wins when
/// both provider domains occur.
pub fn repo_url_to_host(repository_url: &str) -> (r: Option<Host>)
    ensures
        r == spec_url_host(repository_url@),
{
    if contains_str(repository_url, "github.com") {
        Some(Host::GitHub)
    } else if contains_str(repository_url, "gitlab.com") {
        Some(Host::GitLab)
    } else {
        None
    }
}

/// Outcome of the host-resolution policy: a host, a rejected explicit
/// configuration value, or no way to decide.
#[derive(Clone, Copy, Debug, PartialEq, Eq, Structural)]
pub enum HostResolution {
    Resolved(Host),
    InvalidConfig,
    Unresolved,
}

/// Host-resolution policy: an explicit configuration value always wins over
/// URL inference; an unrecognized explicit value is an error, never a fall
/// back to inference.
pub open spec fn spec_resolve_host(explicit: Option<Seq<char>>, url: Seq<char>) -> HostResolution {
    match explicit {
        Some(h) => if h == "github"@ {
            HostResolution::Resolved(Host::GitHub)
        } else if h == "gitlab"@ {
            HostResolution::Resolved(Host::GitLab)
        } else {
            HostResolution::InvalidConfig
        },
        None => match spec_url_host(url) {
            Some(h) => HostResolution::Resolved(h),
            None => HostResolution::Unresolved,
        },
    }
}

/// Resolves the host, preferring explicit configuration over URL inference.
pub fn resolve_host(explicit: Option<&String>, repository_url: &str) -> (r: HostResolution)
    ensures
        r == spec_resolve_host(
            match explicit {
                Some(s) => Some(s@),
                None => None,
            },
            repository_url@,
        ),
{
    match explicit {
        Some(s) => {
            if str_eq(s.as_str(), "github") {
                HostResolution::Resolved(Host::GitHub)
            } else if str_eq(s.as_str(), "gitlab") {
                HostResolution::Resolved(Host::GitLab)
            } else {
                HostResolution::InvalidConfig
            }
        },
        None => match repo_url_to_host(repository_url) {
            Some(h) => HostResolution::Resolved(h),
            None => HostResolution::Unresolved,
        },
    }
}

} // verus!
