//! Loading posts from Markdown sources: titles, filenames, error kinds and
//! the all-or-nothing aggregation policy.

use sitegen::loader::{load_posts, LoadErrorKind, SourceFile};
use sitegen::time::EpochTime;

fn mtime() -> Option<EpochTime> {
    Some(EpochTime { before_epoch: false, secs: 1_700_000_000, nanos: 0 })
}

fn source(name: &str, contents: &str) -> SourceFile {
    SourceFile {
        name: Some(name.to_string()),
        contents: Some(contents.to_string()),
        mtime: mtime(),
    }
}

#[test]
fn hello_world_post() {
    let sources = vec![source("hello.md", "## Hello World\n\nSome *text*.")];
    let posts = load_posts(&sources).expect("a valid source must load");
    assert_eq!(posts.len(), 1);
    assert_eq!(posts[0].title, "Hello World");
    assert!(posts[0].content.contains("<em>text</em>"));
    assert_eq!(posts[0].filename, "hello.html");
    assert!(!posts[0].date.is_empty());
}

#[test]
fn title_is_inner_html_of_first_heading() {
    let sources = vec![source("a.md", "## Ti *tle*\n\n## Second\n\nbody")];
    let posts = load_posts(&sources).expect("a valid source must load");
    assert_eq!(posts[0].title, "Ti <em>tle</em>");
}

#[test]
fn level_one_heading_is_no_title() {
    let sources = vec![source("a.md", "# Top\n\nbody without any level-2 heading")];
    let errors = load_posts(&sources).expect_err("a source without a level-2 heading must fail");
    assert_eq!(errors.len(), 1);
    assert_eq!(errors[0].kind, LoadErrorKind::NoTitleFound);
    assert_eq!(errors[0].path, "a.md");
}

#[test]
fn empty_heading_is_no_title() {
    let sources = vec![source("a.md", "##\n\nbody")];
    let errors = load_posts(&sources).expect_err("an empty heading is no title");
    assert_eq!(errors.len(), 1);
    assert_eq!(errors[0].kind, LoadErrorKind::NoTitleFound);
}

#[test]
fn one_bad_file_discards_all_posts() {
    let sources = vec![
        source("good.md", "## Fine\n\nbody"),
        source("bad.md", "no heading here"),
    ];
    let errors = load_posts(&sources).expect_err("one bad source must fail the whole load");
    assert_eq!(errors.len(), 1);
    assert_eq!(errors[0].kind, LoadErrorKind::NoTitleFound);
    assert_eq!(errors[0].path, "bad.md");
}

#[test]
fn every_failure_is_collected() {
    let unreadable = SourceFile {
        name: Some("unreadable.md".to_string()),
        contents: None,
        mtime: mtime(),
    };
    let nameless = SourceFile { name: None, contents: None, mtime: mtime() };
    let sources = vec![
        source("good.md", "## Fine\n\nbody"),
        unreadable,
        source("untitled.md", "plain text"),
        nameless,
    ];
    let errors = load_posts(&sources).expect_err("three bad sources must fail the load");
    assert_eq!(errors.len(), 3);
    assert_eq!(errors[0].kind, LoadErrorKind::IoError);
    assert_eq!(errors[0].path, "unreadable.md");
    assert_eq!(errors[1].kind, LoadErrorKind::NoTitleFound);
    assert_eq!(errors[1].path, "untitled.md");
    assert_eq!(errors[2].kind, LoadErrorKind::InvalidPath);
    assert_eq!(errors[2].path, "");
}

#[test]
fn missing_mtime_is_io_error() {
    let no_time = SourceFile {
        name: Some("late.md".to_string()),
        contents: Some("## Fine\n\nbody".to_string()),
        mtime: None,
    };
    let errors = load_posts(&vec![no_time]).expect_err("a missing mtime must fail the load");
    assert_eq!(errors.len(), 1);
    assert_eq!(errors[0].kind, LoadErrorKind::IoError);
    assert_eq!(errors[0].path, "late.md");
}

#[test]
fn bare_extension_name_still_loads() {
    let sources = vec![source(".md", "## Dot\n\nbody")];
    let posts = load_posts(&sources).expect("a bare-extension name is still a Markdown name");
    assert_eq!(posts[0].filename, ".html");
    assert_eq!(posts[0].title, "Dot");
}

#[test]
fn empty_directory_loads_empty_list() {
    let posts = load_posts(&Vec::new()).expect("no sources means a successful, empty load");
    assert!(posts.is_empty());
}

#[test]
fn strikethrough_extension_is_enabled() {
    let sources = vec![source("s.md", "## T\n\n~~gone~~")];
    let posts = load_posts(&sources).expect("a valid source must load");
    assert!(posts[0].content.contains("<del>gone</del>"));
}

#[test]
fn post_date_is_formatted_timestamp() {
    let sources = vec![source("d.md", "## T\n\nbody")];
    let posts = load_posts(&sources).expect("a valid source must load");
    // `YYYY-MM-DD HH:MM:SS` plus a timezone designation.
    assert!(posts[0].date.len() >= 19);
    assert!(posts[0].date.contains('-'));
    assert!(posts[0].date.contains(':'));
}
