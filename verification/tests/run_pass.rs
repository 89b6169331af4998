use open_on::config::{BookConfig, ConfigValue, ToolConfig};
use open_on::fsmodel::{CanonEntry, DirModel};
use open_on::transform::{Book, BookItem, Chapter, OpenOn, RunContext, RunError};

fn path(parts: &[&str]) -> Vec<String> {
    parts.iter().map(|p| p.to_string()).collect()
}

fn chapter(name: &str, content: &str, rel: Option<&[&str]>) -> Chapter {
    Chapter {
        name: name.to_string(),
        content: content.to_string(),
        path: rel.map(path),
        sub_items: vec![],
    }
}

/// A context whose book root is its own repository root, with one chapter
/// file at `chapter1/intro.md` that canonicalizes to itself.
fn github_ctx() -> RunContext {
    RunContext {
        root: path(&["home", "me", "book"]),
        src: path(&[]),
        config: BookConfig {
            repository_url: ConfigValue::Text("https://github.com/acme/book".to_string()),
            branch: ConfigValue::Text("main".to_string()),
            tool: None,
        },
        fs: DirModel {
            marked: vec![path(&["home", "me", "book"])],
            canon: vec![CanonEntry {
                key: path(&["home", "me", "book", "chapter1", "intro.md"]),
                value: path(&["home", "me", "book", "chapter1", "intro.md"]),
            }],
        },
    }
}

fn one_chapter_book(content: &str) -> Book {
    Book { sections: vec![BookItem::Chapter(chapter("Intro", content, Some(&["chapter1", "intro.md"])))] }
}

fn first_content(book: &Book) -> &str {
    match &book.sections[0] {
        BookItem::Chapter(c) => &c.content,
        _ => panic!("expected a chapter"),
    }
}

const EXPECTED_GITHUB: &str = "# Intro\n<footer id=\"open-git-repo\">Found a bug? <a href=\"https://github.com/acme/book/edit/main/chapter1/intro.md\">Edit this file on GitHub.</a></footer>";

#[test]
fn github_footer_with_defaults() {
    let out = OpenOn.run(&github_ctx(), one_chapter_book("# Intro")).unwrap();
    assert_eq!(first_content(&out), EXPECTED_GITHUB);
}

#[test]
fn gitlab_footer_with_defaults() {
    let mut ctx = github_ctx();
    ctx.config.repository_url =
        ConfigValue::Text("https://gitlab.com/acme/book".to_string());
    let out = OpenOn.run(&ctx, one_chapter_book("# Intro")).unwrap();
    assert_eq!(
        first_content(&out),
        "# Intro\n<footer id=\"open-git-repo\">Found a bug? <a href=\"https://gitlab.com/acme/book/-/edit/main/chapter1/intro.md\">Edit this file on GitHub.</a></footer>"
    );
}

#[test]
fn explicit_gitlab_host_wins_over_github_url() {
    let mut ctx = github_ctx();
    ctx.config.tool = Some(ToolConfig {
        source_control_host: ConfigValue::Text("gitlab".to_string()),
        link_text: ConfigValue::Missing,
        edit_text: ConfigValue::Missing,
    });
    let out = OpenOn.run(&ctx, one_chapter_book("# Intro")).unwrap();
    assert!(first_content(&out)
        .contains("https://github.com/acme/book/-/edit/main/chapter1/intro.md"));
}

#[test]
fn marked_chapter_is_left_unchanged() {
    let already = format!("# Intro\n{}stale footer", "<footer id=\"open-git-repo\">");
    let out = OpenOn.run(&github_ctx(), one_chapter_book(&already)).unwrap();
    assert_eq!(first_content(&out), already);
}

#[test]
fn second_run_changes_nothing() {
    let once = OpenOn.run(&github_ctx(), one_chapter_book("# Intro")).unwrap();
    let first = first_content(&once).to_string();
    let twice = OpenOn.run(&github_ctx(), once).unwrap();
    assert_eq!(first_content(&twice), first);
    assert_eq!(first.matches("<footer id=\"open-git-repo\">").count(), 1);
}

#[test]
fn pathless_chapter_is_left_unchanged() {
    let book = Book { sections: vec![BookItem::Chapter(chapter("Draft", "draft text", None))] };
    let out = OpenOn.run(&github_ctx(), book).unwrap();
    assert_eq!(first_content(&out), "draft text");
}

#[test]
fn chapter_without_backing_file_is_skipped() {
    let mut ctx = github_ctx();
    ctx.fs.canon = vec![];
    let out = OpenOn.run(&ctx, one_chapter_book("# Intro")).unwrap();
    assert_eq!(first_content(&out), "# Intro");
}

#[test]
fn missing_repository_url_is_a_no_op() {
    let mut ctx = github_ctx();
    ctx.config.repository_url = ConfigValue::Missing;
    let out = OpenOn.run(&ctx, one_chapter_book("# Intro")).unwrap();
    assert_eq!(first_content(&out), "# Intro");
}

#[test]
fn mistyped_repository_url_is_a_no_op() {
    let mut ctx = github_ctx();
    ctx.config.repository_url = ConfigValue::Other;
    let out = OpenOn.run(&ctx, one_chapter_book("# Intro")).unwrap();
    assert_eq!(first_content(&out), "# Intro");
}

#[test]
fn unrecognized_url_is_a_no_op() {
    let mut ctx = github_ctx();
    ctx.config.repository_url =
        ConfigValue::Text("https://example.org/acme/book".to_string());
    let out = OpenOn.run(&ctx, one_chapter_book("# Intro")).unwrap();
    assert_eq!(first_content(&out), "# Intro");
}

#[test]
fn invalid_host_config_is_a_no_op() {
    let mut ctx = github_ctx();
    ctx.config.tool = Some(ToolConfig {
        source_control_host: ConfigValue::Text("sourcehut".to_string()),
        link_text: ConfigValue::Missing,
        edit_text: ConfigValue::Missing,
    });
    let out = OpenOn.run(&ctx, one_chapter_book("# Intro")).unwrap();
    assert_eq!(first_content(&out), "# Intro");
}

#[test]
fn mistyped_branch_is_a_no_op() {
    let mut ctx = github_ctx();
    ctx.config.branch = ConfigValue::Other;
    let out = OpenOn.run(&ctx, one_chapter_book("# Intro")).unwrap();
    assert_eq!(first_content(&out), "# Intro");
}

#[test]
fn missing_branch_defaults_to_master() {
    let mut ctx = github_ctx();
    ctx.config.branch = ConfigValue::Missing;
    let out = OpenOn.run(&ctx, one_chapter_book("# Intro")).unwrap();
    assert!(first_content(&out)
        .contains("https://github.com/acme/book/edit/master/chapter1/intro.md"));
}

#[test]
fn configured_link_and_edit_text_are_used() {
    let mut ctx = github_ctx();
    ctx.config.tool = Some(ToolConfig {
        source_control_host: ConfigValue::Missing,
        link_text: ConfigValue::Text("Improve this page".to_string()),
        edit_text: ConfigValue::Text("Typo? ".to_string()),
    });
    let out = OpenOn.run(&ctx, one_chapter_book("# Intro")).unwrap();
    assert!(first_content(&out).contains(
        "Typo? <a href=\"https://github.com/acme/book/edit/main/chapter1/intro.md\">Improve this page</a>"
    ));
}

#[test]
fn no_git_root_is_a_hard_error() {
    let mut ctx = github_ctx();
    ctx.fs.marked = vec![];
    let r = OpenOn.run(&ctx, one_chapter_book("# Intro"));
    assert_eq!(r.err(), Some(RunError::GitRootNotFound));
}

#[test]
fn canonical_path_outside_root_is_a_hard_error() {
    let mut ctx = github_ctx();
    ctx.fs.canon = vec![CanonEntry {
        key: path(&["home", "me", "book", "chapter1", "intro.md"]),
        value: path(&["elsewhere", "intro.md"]),
    }];
    let r = OpenOn.run(&ctx, one_chapter_book("# Intro"));
    assert_eq!(r.err(), Some(RunError::PathNotUnderGitRoot));
}

#[test]
fn nested_chapters_are_all_visited() {
    let mut ctx = github_ctx();
    ctx.fs.canon.push(CanonEntry {
        key: path(&["home", "me", "book", "chapter1", "deep.md"]),
        value: path(&["home", "me", "book", "chapter1", "deep.md"]),
    });
    let sub = BookItem::Chapter(chapter("Deep", "deep text", Some(&["chapter1", "deep.md"])));
    let top = Chapter {
        name: "Intro".to_string(),
        content: "# Intro".to_string(),
        path: Some(path(&["chapter1", "intro.md"])),
        sub_items: vec![sub, BookItem::Separator],
    };
    let book = Book {
        sections: vec![
            BookItem::PartTitle("Part One".to_string()),
            BookItem::Chapter(top),
            BookItem::Separator,
        ],
    };
    let out = OpenOn.run(&ctx, book).unwrap();
    assert!(matches!(&out.sections[0], BookItem::PartTitle(t) if t == "Part One"));
    assert!(matches!(&out.sections[2], BookItem::Separator));
    match &out.sections[1] {
        BookItem::Chapter(c) => {
            assert_eq!(c.content, EXPECTED_GITHUB);
            match &c.sub_items[0] {
                BookItem::Chapter(s) => {
                    assert!(s.content.starts_with("deep text\n<footer id=\"open-git-repo\">"));
                    assert!(s.content.contains("/edit/main/chapter1/deep.md"));
                },
                _ => panic!("expected a sub-chapter"),
            }
            assert!(matches!(&c.sub_items[1], BookItem::Separator));
        },
        _ => panic!("expected a chapter"),
    }
}

#[test]
fn error_in_later_chapter_aborts_the_run() {
    let mut ctx = github_ctx();
    ctx.fs.canon.push(CanonEntry {
        key: path(&["home", "me", "book", "bad.md"]),
        value: path(&["elsewhere", "bad.md"]),
    });
    let book = Book {
        sections: vec![
            BookItem::Chapter(chapter("Intro", "# Intro", Some(&["chapter1", "intro.md"]))),
            BookItem::Chapter(chapter("Bad", "bad", Some(&["bad.md"]))),
        ],
    };
    let r = OpenOn.run(&ctx, book);
    assert_eq!(r.err(), Some(RunError::PathNotUnderGitRoot));
}

#[test]
fn empty_chapter_still_gets_a_footer() {
    let out = OpenOn.run(&github_ctx(), one_chapter_book("")).unwrap();
    assert!(first_content(&out).starts_with("\n<footer id=\"open-git-repo\">"));
    assert!(first_content(&out).ends_with("</a></footer>"));
}

#[test]
fn preprocessor_name() {
    assert_eq!(OpenOn.name(), "open-git-repo");
}
