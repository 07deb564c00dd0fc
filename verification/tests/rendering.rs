//! Output placement, minification and the directory plan.

use sitegen::dirs::{missing_dirs, required_dirs};
use sitegen::loader::{load_posts, SourceFile};
use sitegen::render::{finish_page, index_output_path, post_output_path};
use sitegen::time::EpochTime;

#[test]
fn minified_page_keeps_content_text() {
    let page = "<html>\n  <body>\n    <h2>Hello World</h2>\n    \
                <p>Some <em>text</em>.</p>\n  </body>\n</html>\n";
    let out = finish_page(page);
    assert!(out.contains("<h2>Hello World</h2>"));
    assert!(out.contains("<p>Some <em>text</em>.</p>"));
    assert_ne!(out, page);
}

#[test]
fn minification_strips_comments_and_blank_runs() {
    let page = "<div>before</div>  \n  <!-- a comment --><div>after</div>";
    let out = finish_page(page);
    assert!(out.contains("<div>before</div>"));
    assert!(out.contains("<div>after</div>"));
    assert!(!out.contains("a comment"));
}

#[test]
fn minifying_rendered_post_content_preserves_it() {
    let sources = vec![SourceFile {
        name: Some("round.md".to_string()),
        contents: Some("## Round Trip\n\nEvery word stays.".to_string()),
        mtime: Some(EpochTime { before_epoch: false, secs: 1_600_000_000, nanos: 0 }),
    }];
    let posts = load_posts(&sources).expect("a valid source must load");
    let page = format!("<html><body>{}</body></html>", posts[0].content);
    let out = finish_page(&page);
    assert!(out.contains("Every word stays."));
    assert!(out.contains("<h2>Round Trip</h2>"));
}

#[test]
fn index_goes_to_fixed_path() {
    assert_eq!(index_output_path("site"), "site/gen/index.html");
}

#[test]
fn post_page_goes_under_gen() {
    let sources = vec![SourceFile {
        name: Some("hello.md".to_string()),
        contents: Some("## Hello\n\nbody".to_string()),
        mtime: Some(EpochTime { before_epoch: false, secs: 1_600_000_000, nanos: 0 }),
    }];
    let posts = load_posts(&sources).expect("a valid source must load");
    assert_eq!(post_output_path("site", &posts[0]), "site/gen/hello.html");
}

#[test]
fn required_tree_has_three_directories() {
    let dirs = required_dirs("site");
    assert_eq!(dirs, vec!["site/gen", "site/gen/posts", "site/gen/assets"]);
}

#[test]
fn plan_creates_only_what_is_missing() {
    let all = missing_dirs("site", false, false, false);
    assert_eq!(all, vec!["site/gen", "site/gen/posts", "site/gen/assets"]);
    let some = missing_dirs("site", true, false, true);
    assert_eq!(some, vec!["site/gen/posts"]);
}

#[test]
fn initialized_tree_plans_nothing_twice() {
    // First run over an empty tree: everything is planned and then created.
    let first = missing_dirs("site", false, false, false);
    assert_eq!(first.len(), 3);
    // Second run: the caller now finds every directory present, so the plan
    // is empty and no filesystem mutation happens.
    let second = missing_dirs("site", true, true, true);
    assert!(second.is_empty());
}
