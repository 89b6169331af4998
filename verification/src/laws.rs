//! The guarantees the transformer gives as a whole: a chapter is never
//! footered twice, soft configuration failures leave the tree untouched, and
//! explicit host configuration always beats URL inference.

use vstd::prelude::*;
use crate::config::ConfigValue;
use crate::footer::{spec_appended, spec_footer_html, spec_footer_marker};
use crate::fsmodel::{DirModel, spec_find_git, spec_marked};
use crate::paths::is_path_prefix;
use crate::host::{
    Host, HostResolution, contains_at, seq_contains, spec_edit_fragment, spec_resolve_host,
    spec_url_host,
};
use crate::transform::{
    EnvModel, ItemModel, RunContext, RunError, spec_new_content, spec_process_item,
    spec_process_items, spec_run,
};

verus! {

/// A chapter whose text already carries the footer marker is left
/// byte-for-byte unchanged, whatever its path resolves to.
pub proof fn lemma_marked_chapter_unchanged(
    content: Seq<char>,
    path: Option<Seq<Seq<char>>>,
    env: EnvModel,
    fs: DirModel,
)
    requires
        seq_contains(content, spec_footer_marker()),
    ensures
        spec_new_content(content, path, env, fs) == Ok::<Seq<char>, RunError>(content),
{
}

/// A chapter with no backing path is returned with its text unchanged.
pub proof fn lemma_pathless_chapter_unchanged(content: Seq<char>, env: EnvModel, fs: DirModel)
    ensures
        spec_new_content(content, None, env, fs) == Ok::<Seq<char>, RunError>(content),
{
}

/// The footer marker holds no newline character.
proof fn lemma_marker_has_no_newline()
    ensures
        forall|j: int|
            0 <= j < spec_footer_marker().len() ==> #[trigger] spec_footer_marker()[j] != '\n',
        spec_footer_marker().len() == 27,
{
    reveal_strlit("<footer id=\"open-git-repo\">");
}

/// Appending the footer puts the marker at the position right after the
/// separating newline.
pub proof fn lemma_appended_contains_marker(
    content: Seq<char>,
    url: Seq<char>,
    link_text: Seq<char>,
    edit_text: Seq<char>,
)
    ensures
        contains_at(
            spec_appended(content, spec_footer_html(url, link_text, edit_text)),
            spec_footer_marker(),
            content.len() + 1 as int,
        ),
        seq_contains(
            spec_appended(content, spec_footer_html(url, link_text, edit_text)),
            spec_footer_marker(),
        ),
{
    reveal_strlit("\n");
    let m = spec_footer_marker();
    let c2 = spec_appended(content, spec_footer_html(url, link_text, edit_text));
    assert(c2.subrange(content.len() as int + 1, content.len() + 1 + m.len() as int) =~= m);
    assert(contains_at(c2, m, content.len() + 1 as int));
    assert(seq_contains(c2, m));
}

/// Processing a chapter's text is idempotent: whatever a first pass
/// returned, a second pass over the same path and surroundings hands it back
/// unchanged.
pub proof fn lemma_new_content_idempotent(
    content: Seq<char>,
    path: Option<Seq<Seq<char>>>,
    env: EnvModel,
    fs: DirModel,
)
    ensures
        (match spec_new_content(content, path, env, fs) {
            Ok(c2) => spec_new_content(c2, path, env, fs) == Ok::<Seq<char>, RunError>(c2),
            Err(_) => true,
        }),
{
    match spec_new_content(content, path, env, fs) {
        Ok(c2) => {
            if c2 != content {
                lemma_appended_contains_marker(content, spec_edit_url_of(env, path, fs), env.link_text, env.edit_text);
            }
        },
        Err(_) => {},
    }
}

/// The edit URL a chapter's footer points at, once its canonical path is
/// known to lie under the repository root.
pub open spec fn spec_edit_url_of(env: EnvModel, path: Option<Seq<Seq<char>>>, fs: DirModel) -> Seq<
    char,
> {
    crate::footer::spec_edit_url(
        env.base_url,
        spec_edit_fragment(env.host),
        env.branch,
        crate::paths::spec_join_slash(
            (match path {
                Some(p) => match crate::fsmodel::spec_canon_lookup(fs.canon@, env.src_root + p) {
                    Some(canon) => canon.skip(env.git_root.len() as int),
                    None => Seq::empty(),
                },
                None => Seq::empty(),
            }),
        ),
    )
}

/// After a successful append, the marker occurs at exactly one position:
/// right after the separating newline. This needs the text not to have
/// carried the marker already, and the footer not to contain a second copy
/// of the marker beyond the one it opens with (user-configured link or edit
/// text could smuggle one in).
pub proof fn lemma_appended_marker_unique(
    content: Seq<char>,
    url: Seq<char>,
    link_text: Seq<char>,
    edit_text: Seq<char>,
)
    requires
        !seq_contains(content, spec_footer_marker()),
        !seq_contains(
            spec_footer_html(url, link_text, edit_text).drop_first(),
            spec_footer_marker(),
        ),
    ensures
        forall|i: int|
            contains_at(
                spec_appended(content, spec_footer_html(url, link_text, edit_text)),
                spec_footer_marker(),
                i,
            ) <==> i == content.len() + 1 as int,
{
    reveal_strlit("\n");
    lemma_marker_has_no_newline();
    lemma_appended_contains_marker(content, url, link_text, edit_text);
    let m = spec_footer_marker();
    let f = spec_footer_html(url, link_text, edit_text);
    let c2 = spec_appended(content, f);
    let n = content.len() as int;
    assert forall|i: int|
        contains_at(c2, m, i) implies i == n + 1 by {
        if i + m.len() <= n {
            assert(content.subrange(i, i + m.len() as int) =~= c2.subrange(i, i + m.len() as int));
            assert(contains_at(content, m, i));
            assert(false);
        } else if i <= n {
            assert(c2[n] == '\n');
            assert(c2.subrange(i, i + m.len() as int)[n - i] == c2[n]);
            assert(m[n - i] == '\n');
            assert(false);
        } else if i > n + 1 {
            let d = i - (n + 1);
            assert(f.drop_first().subrange(d - 1, d - 1 + m.len() as int) =~= c2.subrange(
                i,
                i + m.len() as int,
            ));
            assert(contains_at(f.drop_first(), m, d - 1));
            assert(false);
        }
    }
}

/// When a pass changes a chapter at all, the marker stands at exactly one
/// position in the new text: right after the newline that separates the old
/// text from the footer. The provisos are those of the append itself: the
/// old text must not carry the marker, and the configured texts must not
/// smuggle a second copy into the footer's tail.
pub proof fn lemma_processed_chapter_marker_unique(
    content: Seq<char>,
    path: Option<Seq<Seq<char>>>,
    env: EnvModel,
    fs: DirModel,
)
    requires
        !seq_contains(content, spec_footer_marker()),
        !seq_contains(
            spec_footer_html(
                spec_edit_url_of(env, path, fs),
                env.link_text,
                env.edit_text,
            ).drop_first(),
            spec_footer_marker(),
        ),
    ensures
        (match spec_new_content(content, path, env, fs) {
            Ok(c2) => c2 != content ==> forall|i: int|
                contains_at(c2, spec_footer_marker(), i) <==> i == content.len() + 1 as int,
            Err(_) => true,
        }),
{
    match spec_new_content(content, path, env, fs) {
        Ok(c2) => {
            if c2 != content {
                lemma_appended_marker_unique(
                    content,
                    spec_edit_url_of(env, path, fs),
                    env.link_text,
                    env.edit_text,
                );
            }
        },
        Err(_) => {},
    }
}

/// Processing one tree item is idempotent: a second pass over what a first
/// pass produced changes nothing.
pub proof fn lemma_process_item_idempotent(m: ItemModel, env: EnvModel, fs: DirModel)
    ensures
        (match spec_process_item(m, env, fs) {
            Ok(m2) => spec_process_item(m2, env, fs) == Ok::<ItemModel, RunError>(m2),
            Err(_) => true,
        }),
    decreases m,
{
    match m {
        ItemModel::Chapter { content, path, sub_items, .. } => {
            lemma_new_content_idempotent(content, path, env, fs);
            lemma_process_items_idempotent(sub_items, env, fs);
        },
        _ => {},
    }
}

/// Processing a sequence of tree items is idempotent.
pub proof fn lemma_process_items_idempotent(ms: Seq<ItemModel>, env: EnvModel, fs: DirModel)
    ensures
        (match spec_process_items(ms, env, fs) {
            Ok(ms2) => spec_process_items(ms2, env, fs) == Ok::<Seq<ItemModel>, RunError>(ms2),
            Err(_) => true,
        }),
    decreases ms,
{
    if ms.len() > 0 {
        lemma_process_item_idempotent(ms[0], env, fs);
        lemma_process_items_idempotent(ms.drop_first(), env, fs);
        match spec_process_item(ms[0], env, fs) {
            Ok(m2) => match spec_process_items(ms.drop_first(), env, fs) {
                Ok(rest) => {
                    let ms2 = seq![m2] + rest;
                    assert(ms2[0] == m2);
                    assert(ms2.drop_first() =~= rest);
                },
                Err(_) => {},
            },
            Err(_) => {},
        }
    }
}

/// A whole run is idempotent: running the pass again over what a successful
/// run produced hands the tree back unchanged.
pub proof fn lemma_run_idempotent(ctx: RunContext, book: Seq<ItemModel>)
    ensures
        (match spec_run(ctx, book) {
            Ok(b2) => spec_run(ctx, b2) == Ok::<Seq<ItemModel>, RunError>(b2),
            Err(_) => true,
        }),
{
    match spec_find_git(ctx.root.deep_view(), ctx.fs.marked.deep_view()) {
        None => {},
        Some(git_root) => match ctx.config.repository_url {
            ConfigValue::Text(url) => {
                lemma_process_items_idempotent(
                    book,
                    (EnvModel {
                        git_root: git_root,
                        src_root: ctx.root.deep_view() + ctx.src.deep_view(),
                        base_url: url@,
                        branch: (match crate::config::spec_branch(ctx.config) {
                            Some(b) => b,
                            None => Seq::empty(),
                        }),
                        link_text: crate::config::spec_link_text(ctx.config),
                        edit_text: crate::config::spec_edit_text(ctx.config),
                        host: (match spec_resolve_host(
                            crate::config::spec_explicit_host(ctx.config),
                            url@,
                        ) {
                            HostResolution::Resolved(h) => h,
                            _ => Host::GitHub,
                        }),
                    }),
                    ctx.fs,
                );
            },
            _ => {},
        },
    }
}

/// The locator finds the nearest marked ancestor: what it returns is a
/// marked prefix of the start path with no marked prefix strictly between it
/// and the start; when it finds nothing, no prefix of the start but possibly
/// the filesystem root itself is marked.
pub proof fn lemma_find_git_nearest(path: Seq<Seq<char>>, marked: Seq<Seq<Seq<char>>>)
    ensures
        (match spec_find_git(path, marked) {
            Some(root) => is_path_prefix(root, path) && spec_marked(marked, root) && forall|k: int|
                root.len() < k <= path.len() ==> !spec_marked(marked, path.subrange(0, k)),
            None => forall|k: int|
                1 <= k <= path.len() ==> !spec_marked(marked, path.subrange(0, k)),
        }),
    decreases path.len(),
{
    if spec_marked(marked, path) {
        assert(path.subrange(0, path.len() as int) =~= path);
    } else if path.len() <= 1 {
        if path.len() == 1 {
            assert(path.subrange(0, 1) =~= path);
        }
    } else {
        lemma_find_git_nearest(path.drop_last(), marked);
        assert forall|k: int| 1 <= k <= path.len() - 1 implies path.drop_last().subrange(0, k)
            == path.subrange(0, k) by {
            assert(path.drop_last().subrange(0, k) =~= path.subrange(0, k));
        }
        assert(path.subrange(0, path.len() as int) =~= path);
        match spec_find_git(path.drop_last(), marked) {
            Some(root) => {
                assert(is_path_prefix(root, path.drop_last()));
                assert(root == path.drop_last().subrange(0, root.len() as int));
                assert(path.drop_last().subrange(0, root.len() as int) =~= path.subrange(
                    0,
                    root.len() as int,
                ));
            },
            None => {},
        }
    }
}

/// An explicitly configured `gitlab` host always resolves to GitLab and the
/// `-/edit` fragment, whatever the repository URL holds.
pub proof fn lemma_explicit_gitlab_wins(url: Seq<char>)
    ensures
        spec_resolve_host(Some("gitlab"@), url) == HostResolution::Resolved(Host::GitLab),
        spec_edit_fragment(Host::GitLab) == "-/edit"@,
{
    reveal_strlit("github");
    reveal_strlit("gitlab");
    assert("gitlab"@[3] == 'l');
    assert("github"@[3] == 'h');
    assert("gitlab"@ != "github"@);
}

/// With no explicit host configured, a URL containing `github.com` resolves
/// to GitHub and the `edit` fragment.
pub proof fn lemma_inferred_github(url: Seq<char>)
    requires
        seq_contains(url, "github.com"@),
    ensures
        spec_resolve_host(None, url) == HostResolution::Resolved(Host::GitHub),
        spec_edit_fragment(Host::GitHub) == "edit"@,
{
}

/// With no explicit host and a URL naming no known provider, the run is a
/// no-op: the tree comes back unchanged.
pub proof fn lemma_unrecognized_url_run_unchanged(ctx: RunContext, book: Seq<ItemModel>)
    requires
        spec_find_git(ctx.root.deep_view(), ctx.fs.marked.deep_view()) is Some,
        ctx.config.repository_url matches ConfigValue::Text(u) && spec_url_host(u@) is None,
        crate::config::spec_explicit_host(ctx.config) is None,
    ensures
        spec_run(ctx, book) == Ok::<Seq<ItemModel>, RunError>(book),
{
}

/// With no repository URL configured (or one that is not plain text), the
/// run is a no-op: the tree comes back unchanged.
pub proof fn lemma_missing_url_run_unchanged(ctx: RunContext, book: Seq<ItemModel>)
    requires
        spec_find_git(ctx.root.deep_view(), ctx.fs.marked.deep_view()) is Some,
        !(ctx.config.repository_url is Text),
    ensures
        spec_run(ctx, book) == Ok::<Seq<ItemModel>, RunError>(book),
{
}

} // verus!
