//! The whole-tree pass: resolves configuration and the repository root once,
//! then visits every chapter in display order, appending the footer to each
//! eligible one exactly once. The first hard error aborts the remaining
//! traversal; every soft failure leaves the tree untouched.

use vstd::prelude::*;
use crate::config::{
    BookConfig, ConfigValue, branch, edit_text, explicit_host, link_text, spec_branch,
    spec_edit_text, spec_explicit_host, spec_link_text,
};
use crate::footer::{
    append_footer, footer_marker, render_edit_url, render_footer_html, spec_appended,
    spec_edit_url, spec_footer_html, spec_footer_marker,
};
use crate::fsmodel::{DirModel, canon_lookup, find_git, spec_canon_lookup, spec_find_git};
use crate::host::{
    Host, HostResolution, contains_str, resolve_host, seq_contains, spec_edit_fragment,
    spec_resolve_host,
};
use crate::paths::{is_path_prefix, join_slash, path_clone, path_join, spec_join_slash,
    strip_prefix};

verus! {

/// The hard failures of a run. Soft failures (missing or mistyped
/// configuration, an unresolvable host) never surface here: they end the run
/// with the tree unchanged.
#[derive(Clone, Copy, Debug, PartialEq, Eq, Structural)]
pub enum RunError {
    /// No version-control marker was found between the book root and the
    /// filesystem root. The run aborts with this error, deliberately, rather
    /// than silently skipping footer injection tree-wide.
    GitRootNotFound,
    /// A chapter's canonical path does not lie under the located repository
    /// root; the locator's contract makes this a logic error, so it fails the
    /// run loudly instead of being skipped.
    PathNotUnderGitRoot,
}

/// One node of the book tree: a chapter, or a grouping node that carries no
/// content of its own.
pub enum BookItem {
    Chapter(Chapter),
    Separator,
    PartTitle(String),
}

/// One content unit of the book: its title, its text, its source path
/// relative to the book's content directory (absent for synthetic drafts),
/// and its nested sub-chapters.
pub struct Chapter {
    pub name: String,
    pub content: String,
    pub path: Option<Vec<String>>,
    pub sub_items: Vec<BookItem>,
}

/// The book tree handed over for one run.
pub struct Book {
    pub sections: Vec<BookItem>,
}

/// The mathematical shape of a book item: every text as a sequence of
/// characters, every path as its components.
pub ghost enum ItemModel {
    Chapter {
        name: Seq<char>,
        content: Seq<char>,
        path: Option<Seq<Seq<char>>>,
        sub_items: Seq<ItemModel>,
    },
    Separator,
    PartTitle(Seq<char>),
}

impl BookItem {
    /// The mathematical shape of this item.
    pub open spec fn model(self) -> ItemModel
        decreases self,
    {
        match self {
            BookItem::Separator => ItemModel::Separator,
            BookItem::PartTitle(t) => ItemModel::PartTitle(t@),
            BookItem::Chapter(c) => ItemModel::Chapter {
                name: c.name@,
                content: c.content@,
                path: c.path.deep_view(),
                sub_items: items_model(c.sub_items@),
            },
        }
    }
}

/// The mathematical shape of a sequence of book items.
pub open spec fn items_model(items: Seq<BookItem>) -> Seq<ItemModel>
    decreases items,
{
    Seq::new(
        items.len(),
        |i: int|
            if 0 <= i < items.len() {
                items[i].model()
            } else {
                ItemModel::Separator
            },
    )
}

impl Book {
    /// The mathematical shape of the whole tree.
    pub open spec fn model(self) -> Seq<ItemModel> {
        items_model(self.sections@)
    }
}

/// The settings a run works under once configuration and the repository root
/// are resolved.
pub struct RenderEnv {
    /// The located working-tree root.
    pub git_root: Vec<String>,
    /// The book's content directory: the book root joined with its source
    /// directory.
    pub src_root: Vec<String>,
    pub base_url: String,
    pub branch: String,
    pub link_text: String,
    pub edit_text: String,
    pub host: Host,
}

/// The mathematical shape of the resolved settings.
pub ghost struct EnvModel {
    pub git_root: Seq<Seq<char>>,
    pub src_root: Seq<Seq<char>>,
    pub base_url: Seq<char>,
    pub branch: Seq<char>,
    pub link_text: Seq<char>,
    pub edit_text: Seq<char>,
    pub host: Host,
}

impl RenderEnv {
    /// The mathematical shape of these settings.
    pub open spec fn model(self) -> EnvModel {
        EnvModel {
            git_root: self.git_root.deep_view(),
            src_root: self.src_root.deep_view(),
            base_url: self.base_url@,
            branch: self.branch@,
            link_text: self.link_text@,
            edit_text: self.edit_text@,
            host: self.host,
        }
    }
}

/// What one chapter's text becomes. A chapter already carrying the footer
/// marker, one with no source path, and one whose path does not canonicalize
/// are left unchanged; a canonical path outside the repository root is a hard
/// error; otherwise the rendered footer is appended.
pub open spec fn spec_new_content(
    content: Seq<char>,
    path: Option<Seq<Seq<char>>>,
    env: EnvModel,
    fs: DirModel,
) -> Result<Seq<char>, RunError> {
    if seq_contains(content, spec_footer_marker()) {
        Ok(content)
    } else {
        match path {
            None => Ok(content),
            Some(p) => match spec_canon_lookup(fs.canon@, env.src_root + p) {
                None => Ok(content),
                Some(canon) => if is_path_prefix(env.git_root, canon) {
                    Ok(
                        spec_appended(
                            content,
                            spec_footer_html(
                                spec_edit_url(
                                    env.base_url,
                                    spec_edit_fragment(env.host),
                                    env.branch,
                                    spec_join_slash(canon.skip(env.git_root.len() as int)),
                                ),
                                env.link_text,
                                env.edit_text,
                            ),
                        ),
                    )
                } else {
                    Err(RunError::PathNotUnderGitRoot)
                },
            },
        }
    }
}

/// Computes one chapter's new text: the footer is appended unless the
/// chapter was already processed, has no backing file, or its path does not
/// canonicalize; a canonical path outside the repository root fails.
pub fn open_on(env: &RenderEnv, fs: &DirModel, chapter: &Chapter) -> (r: Result<String, RunError>)
    ensures
        (match r {
            Ok(s) => Ok(s@),
            Err(e) => Err(e),
        }) == spec_new_content(chapter.content@, chapter.path.deep_view(), env.model(), *fs),
{
    if contains_str(chapter.content.as_str(), footer_marker()) {
        return Ok(chapter.content.clone());
    }
    match &chapter.path {
        None => Ok(chapter.content.clone()),
        Some(p) => {
            let joined = path_join(&env.src_root, p);
            proof {
                assert(joined.deep_view() =~= env.src_root.deep_view() + p.deep_view());
            }
            match canon_lookup(fs, &joined) {
                None => Ok(chapter.content.clone()),
                Some(canon) => match strip_prefix(&env.git_root, &canon) {
                    None => Err(RunError::PathNotUnderGitRoot),
                    Some(rel) => {
                        let relstr = join_slash(&rel);
                        let url = render_edit_url(
                            env.base_url.as_str(),
                            &env.host,
                            env.branch.as_str(),
                            relstr.as_str(),
                        );
                        let html = render_footer_html(
                            url.as_str(),
                            env.link_text.as_str(),
                            env.edit_text.as_str(),
                        );
                        Ok(append_footer(chapter.content.as_str(), html.as_str()))
                    },
                },
            }
        },
    }
}

/// What one item of the tree becomes: a grouping node is kept as it is, a
/// chapter gets its new text and its sub-items are visited in order, the
/// chapter itself first.
pub open spec fn spec_process_item(m: ItemModel, env: EnvModel, fs: DirModel) -> Result<
    ItemModel,
    RunError,
>
    decreases m,
{
    match m {
        ItemModel::Separator => Ok(ItemModel::Separator),
        ItemModel::PartTitle(t) => Ok(ItemModel::PartTitle(t)),
        ItemModel::Chapter { name, content, path, sub_items } => match spec_new_content(
            content,
            path,
            env,
            fs,
        ) {
            Err(e) => Err(e),
            Ok(c2) => match spec_process_items(sub_items, env, fs) {
                Err(e) => Err(e),
                Ok(subs2) => Ok(
                    ItemModel::Chapter { name, content: c2, path, sub_items: subs2 },
                ),
            },
        },
    }
}

/// What a sequence of items becomes, visited front to back; the first error
/// aborts the remaining traversal.
pub open spec fn spec_process_items(ms: Seq<ItemModel>, env: EnvModel, fs: DirModel) -> Result<
    Seq<ItemModel>,
    RunError,
>
    decreases ms,
{
    if ms.len() == 0 {
        Ok(Seq::empty())
    } else {
        match spec_process_item(ms[0], env, fs) {
            Err(e) => Err(e),
            Ok(m2) => match spec_process_items(ms.drop_first(), env, fs) {
                Err(e) => Err(e),
                Ok(rest) => Ok(seq![m2] + rest),
            },
        }
    }
}

/// `r` with `pre` prepended to its items when it carries any.
pub open spec fn prepend_result(pre: Seq<ItemModel>, r: Result<Seq<ItemModel>, RunError>) -> Result<
    Seq<ItemModel>,
    RunError,
> {
    match r {
        Ok(rest) => Ok(pre + rest),
        Err(e) => Err(e),
    }
}

/// Transforms one item of the tree.
pub fn process_item(item: &BookItem, env: &RenderEnv, fs: &DirModel) -> (r: Result<
    BookItem,
    RunError,
>)
    ensures
        (match r {
            Ok(it) => Ok(it.model()),
            Err(e) => Err(e),
        }) == spec_process_item(item.model(), env.model(), *fs),
    decreases *item,
{
    match item {
        BookItem::Separator => Ok(BookItem::Separator),
        BookItem::PartTitle(t) => Ok(BookItem::PartTitle(t.clone())),
        BookItem::Chapter(c) => {
            let new_content = match open_on(env, fs, c) {
                Ok(s) => s,
                Err(e) => {
                    return Err(e);
                },
            };
            proof {
                assert(decreases_to!(*item => *c));
                assert(decreases_to!(*c => c.sub_items));
                assert(decreases_to!(c.sub_items => c.sub_items@));
                assert(decreases_to!(*item => c.sub_items@));
            }
            let subs = match process_items(&c.sub_items, env, fs) {
                Ok(v) => v,
                Err(e) => {
                    return Err(e);
                },
            };
            let new_path = match &c.path {
                None => None,
                Some(p) => Some(path_clone(p)),
            };
            proof {
                if c.path is Some {
                    assert(new_path.deep_view() == c.path.deep_view());
                }
            }
            Ok(
                BookItem::Chapter(
                    Chapter {
                        name: c.name.clone(),
                        content: new_content,
                        path: new_path,
                        sub_items: subs,
                    },
                ),
            )
        },
    }
}

/// Transforms a sequence of tree items front to back, stopping at the first
/// error.
pub fn process_items(items: &Vec<BookItem>, env: &RenderEnv, fs: &DirModel) -> (r: Result<
    Vec<BookItem>,
    RunError,
>)
    ensures
        (match r {
            Ok(v) => Ok(items_model(v@)),
            Err(e) => Err(e),
        }) == spec_process_items(items_model(items@), env.model(), *fs),
    decreases items@,
{
    let ghost full = items_model(items@);
    let ghost em = env.model();
    let mut out: Vec<BookItem> = Vec::new();
    let mut i: usize = 0;
    proof {
        assert(full.skip(0) =~= full);
        assert(items_model(out@) =~= Seq::<ItemModel>::empty());
        match spec_process_items(full, em, *fs) {
            Ok(rest) => {
                assert(Seq::<ItemModel>::empty() + rest =~= rest);
            },
            Err(_) => {},
        }
    }
    while i < items.len()
        invariant
            i <= items@.len(),
            full == items_model(items@),
            em == env.model(),
            prepend_result(items_model(out@), spec_process_items(full.skip(i as int), em, *fs))
                == spec_process_items(full, em, *fs),
        decreases items@.len() - i,
    {
        proof {
            assert(full.len() == items@.len());
            assert(full.skip(i as int)[0] == full[i as int]);
            assert(full[i as int] == items@[i as int].model());
            assert(full.skip(i as int).drop_first() =~= full.skip(i as int + 1));
            assert(decreases_to!(items@ => items@[i as int]));
        }
        match process_item(&items[i], env, fs) {
            Err(e) => {
                return Err(e);
            },
            Ok(it2) => {
                let ghost old_out = out@;
                let ghost m2 = it2.model();
                out.push(it2);
                proof {
                    assert(items_model(out@) =~= items_model(old_out) + seq![m2]);
                    match spec_process_items(full.skip(i as int + 1), em, *fs) {
                        Ok(rest) => {
                            assert((items_model(old_out) + seq![m2]) + rest =~= items_model(
                                old_out,
                            ) + (seq![m2] + rest));
                        },
                        Err(_) => {},
                    }
                }
            },
        }
        i += 1;
    }
    proof {
        assert(full.skip(items@.len() as int).len() == 0);
        assert(items_model(out@) + Seq::<ItemModel>::empty() =~= items_model(out@));
    }
    Ok(out)
}

/// Everything one run is given: the book's root directory, its content
/// directory relative to that root, the configuration, and the directory
/// facts read from disk.
pub struct RunContext {
    pub root: Vec<String>,
    pub src: Vec<String>,
    pub config: BookConfig,
    pub fs: DirModel,
}

/// What a whole run returns. No repository root is a hard error; a missing
/// or mistyped repository URL, an invalid or unresolvable host, and a
/// mistyped branch each end the run with the tree unchanged; otherwise every
/// item is visited.
pub open spec fn spec_run(ctx: RunContext, book: Seq<ItemModel>) -> Result<
    Seq<ItemModel>,
    RunError,
> {
    match spec_find_git(ctx.root.deep_view(), ctx.fs.marked.deep_view()) {
        None => Err(RunError::GitRootNotFound),
        Some(git_root) => match ctx.config.repository_url {
            ConfigValue::Text(url) => match spec_resolve_host(
                spec_explicit_host(ctx.config),
                url@,
            ) {
                HostResolution::Resolved(h) => match spec_branch(ctx.config) {
                    Some(b) => spec_process_items(
                        book,
                        (EnvModel {
                            git_root: git_root,
                            src_root: ctx.root.deep_view() + ctx.src.deep_view(),
                            base_url: url@,
                            branch: b,
                            link_text: spec_link_text(ctx.config),
                            edit_text: spec_edit_text(ctx.config),
                            host: h,
                        }),
                        ctx.fs,
                    ),
                    None => Ok(book),
                },
                _ => Ok(book),
            },
            _ => Ok(book),
        },
    }
}

/// The transformer itself: one value drives one run.
pub struct OpenOn;

impl OpenOn {
    /// The name under which the tool-scoped configuration table is looked
    /// up.
    pub fn name(&self) -> (r: &'static str)
        ensures
            r@ == "open-git-repo"@,
    {
        "open-git-repo"
    }

    /// Runs the whole pass over the book tree.
    pub fn run(&self, ctx: &RunContext, book: Book) -> (r: Result<Book, RunError>)
        ensures
            (match r {
                Ok(b) => Ok(b.model()),
                Err(e) => Err(e),
            }) == spec_run(*ctx, book.model()),
    {
        let git_root = match find_git(&ctx.root, &ctx.fs) {
            Some(g) => g,
            None => {
                return Err(RunError::GitRootNotFound);
            },
        };
        let url = match &ctx.config.repository_url {
            ConfigValue::Text(u) => u.clone(),
            _ => {
                return Ok(book);
            },
        };
        let eh = explicit_host(&ctx.config);
        let host = match resolve_host(eh.as_ref(), url.as_str()) {
            HostResolution::Resolved(h) => h,
            _ => {
                return Ok(book);
            },
        };
        let lt = link_text(&ctx.config);
        let et = edit_text(&ctx.config);
        let br = match branch(&ctx.config) {
            Some(b) => b,
            None => {
                return Ok(book);
            },
        };
        let src_root = path_join(&ctx.root, &ctx.src);
        let env = RenderEnv {
            git_root,
            src_root,
            base_url: url,
            branch: br,
            link_text: lt,
            edit_text: et,
            host,
        };
        proof {
            assert(env.src_root.deep_view() =~= ctx.root.deep_view() + ctx.src.deep_view());
        }
        match process_items(&book.sections, &env, &ctx.fs) {
            Ok(secs) => Ok(Book { sections: secs }),
            Err(e) => Err(e),
        }
    }
}

} // verus!
