//! The library's share of page rendering: output placement and minification.
//!
//! The template engine is an outside collaborator that turns a post, or the
//! post list, into page HTML. The library decides where each page goes —
//! the index at a fixed name under the generated tree, each post at its
//! derived file name — and minifies the rendered text before it is written.
//! Minification is done by the `minify` crate; the library relies only on it
//! being a pure function of the input, named [`minified_of`], and the
//! pipeline's correctness nowhere depends on what it strips.

use vstd::prelude::*;
use vstd::string::StringExecFns;
use crate::post::Post;

verus! {

/// The text that the HTML minifier produces for the page `html`. The result
/// depends on the input text alone.
pub uninterp spec fn minified_of(html: Seq<char>) -> Seq<char>;

/// Relies on `minify::html::minify`: a character filter that strips comments,
/// control characters and redundant whitespace; it never fails and its result
/// depends on the input text alone.
#[verifier::external_body]
fn minify_html(html: &str) -> (r: String)
    ensures
        r@ == minified_of(html@),
{
    minify::html::minify(html)
}

/// The final text of a page: the rendered HTML, minified.
pub fn finish_page(rendered: &str) -> (r: String)
    ensures
        r@ == minified_of(rendered@),
{
    minify_html(rendered)
}

/// Where the index page goes: `index.html` at the top of the generated tree.
pub fn index_output_path(root: &str) -> (r: String)
    ensures
        r@ == root@ + "/gen/index.html"@,
{
    let mut out = root.to_owned();
    out.append("/gen/index.html");
    out
}

/// Where a post's page goes: its derived file name at the top of the
/// generated tree.
pub fn post_output_path(root: &str, post: &Post) -> (r: String)
    ensures
        r@ == root@ + "/gen/"@ + post.filename@,
{
    let mut out = root.to_owned();
    out.append("/gen/");
    out.append(post.filename.as_str());
    out
}

} // verus!
