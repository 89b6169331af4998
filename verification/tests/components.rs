use open_on::fsmodel::{CanonEntry, DirModel};
use open_on::host::{
    contains_str, host_to_edit_uri_fragment, repo_url_to_host, resolve_host, str_eq, Host,
    HostResolution,
};
use open_on::fsmodel::find_git;
use open_on::footer::{append_footer, footer_marker, render_edit_url, render_footer_html};
use open_on::paths::{join_slash, path_join, strip_prefix};

fn path(parts: &[&str]) -> Vec<String> {
    parts.iter().map(|p| p.to_string()).collect()
}

#[test]
fn contains_str_finds_needle() {
    assert!(contains_str("https://github.com/acme/book", "github.com"));
    assert!(!contains_str("https://example.com/acme/book", "github.com"));
    assert!(contains_str("abc", ""));
    assert!(!contains_str("ab", "abc"));
}

#[test]
fn str_eq_compares_characters() {
    assert!(str_eq("gitlab", "gitlab"));
    assert!(!str_eq("gitlab", "github"));
    assert!(!str_eq("git", "gitlab"));
}

#[test]
fn url_host_inference() {
    assert_eq!(repo_url_to_host("https://github.com/acme/book"), Some(Host::GitHub));
    assert_eq!(repo_url_to_host("https://gitlab.com/acme/book"), Some(Host::GitLab));
    assert_eq!(repo_url_to_host("https://example.org/acme/book"), None);
}

#[test]
fn edit_fragments() {
    assert_eq!(host_to_edit_uri_fragment(&Host::GitHub), "edit");
    assert_eq!(host_to_edit_uri_fragment(&Host::GitLab), "-/edit");
}

#[test]
fn explicit_host_beats_url() {
    let explicit = "gitlab".to_string();
    assert_eq!(
        resolve_host(Some(&explicit), "https://github.com/acme/book"),
        HostResolution::Resolved(Host::GitLab)
    );
}

#[test]
fn invalid_explicit_host_is_an_error() {
    let explicit = "sourcehut".to_string();
    assert_eq!(
        resolve_host(Some(&explicit), "https://github.com/acme/book"),
        HostResolution::InvalidConfig
    );
}

#[test]
fn no_explicit_host_falls_back_to_url() {
    assert_eq!(
        resolve_host(None, "https://gitlab.com/acme/book"),
        HostResolution::Resolved(Host::GitLab)
    );
    assert_eq!(resolve_host(None, "https://example.org/x"), HostResolution::Unresolved);
}

#[test]
fn find_git_walks_up_to_marked_ancestor() {
    let fs = DirModel { marked: vec![path(&["a"])], canon: vec![] };
    assert_eq!(find_git(&path(&["a", "b", "c"]), &fs), Some(path(&["a"])));
}

#[test]
fn find_git_zero_steps_at_start() {
    let fs = DirModel { marked: vec![path(&["a", "b"])], canon: vec![] };
    assert_eq!(find_git(&path(&["a", "b"]), &fs), Some(path(&["a", "b"])));
}

#[test]
fn find_git_without_marker_is_not_found() {
    let fs = DirModel { marked: vec![], canon: vec![] };
    assert_eq!(find_git(&path(&["a", "b", "c"]), &fs), None);
}

#[test]
fn find_git_never_examines_the_filesystem_root_from_below() {
    let fs = DirModel { marked: vec![path(&[])], canon: vec![] };
    assert_eq!(find_git(&path(&["a"]), &fs), None);
    assert_eq!(find_git(&path(&[]), &fs), Some(path(&[])));
}

#[test]
fn find_git_prefers_nearest_ancestor() {
    let fs = DirModel { marked: vec![path(&["a"]), path(&["a", "b"])], canon: vec![] };
    assert_eq!(find_git(&path(&["a", "b", "c"]), &fs), Some(path(&["a", "b"])));
}

#[test]
fn strip_prefix_splits_under_root() {
    let rel = strip_prefix(&path(&["a", "b"]), &path(&["a", "b", "c", "d.md"]));
    assert_eq!(rel, Some(path(&["c", "d.md"])));
}

#[test]
fn strip_prefix_rejects_unrelated_root() {
    assert_eq!(strip_prefix(&path(&["z"]), &path(&["a", "b"])), None);
    assert_eq!(strip_prefix(&path(&["a", "b", "c"]), &path(&["a", "b"])), None);
}

#[test]
fn join_slash_writes_separators() {
    assert_eq!(join_slash(&path(&["chapter1", "intro.md"])), "chapter1/intro.md");
    assert_eq!(join_slash(&path(&["one"])), "one");
    assert_eq!(join_slash(&path(&[])), "");
}

#[test]
fn path_join_concatenates() {
    assert_eq!(path_join(&path(&["a"]), &path(&["b", "c"])), path(&["a", "b", "c"]));
}

#[test]
fn canon_lookup_takes_first_match() {
    let fs = DirModel {
        marked: vec![],
        canon: vec![
            CanonEntry { key: path(&["k"]), value: path(&["v1"]) },
            CanonEntry { key: path(&["k"]), value: path(&["v2"]) },
        ],
    };
    assert_eq!(open_on::fsmodel::canon_lookup(&fs, &path(&["k"])), Some(path(&["v1"])));
    assert_eq!(open_on::fsmodel::canon_lookup(&fs, &path(&["missing"])), None);
}

#[test]
fn rendered_url_and_footer() {
    let url = render_edit_url(
        "https://github.com/acme/book",
        &Host::GitHub,
        "main",
        "chapter1/intro.md",
    );
    assert_eq!(url, "https://github.com/acme/book/edit/main/chapter1/intro.md");
    let html = render_footer_html(&url, "Edit this file on GitHub.", "Found a bug? ");
    assert_eq!(
        html,
        "<footer id=\"open-git-repo\">Found a bug? <a href=\"https://github.com/acme/book/edit/main/chapter1/intro.md\">Edit this file on GitHub.</a></footer>"
    );
    let out = append_footer("# Intro", &html);
    assert_eq!(out, format!("# Intro\n{}", html));
}

#[test]
fn footer_tail_does_not_repeat_the_marker() {
    let url = render_edit_url(
        "https://github.com/acme/book",
        &Host::GitHub,
        "main",
        "chapter1/intro.md",
    );
    let html = render_footer_html(&url, "Edit this file on GitHub.", "Found a bug? ");
    assert!(html.starts_with(footer_marker()));
    assert!(!html[1..].contains(footer_marker()));
}
