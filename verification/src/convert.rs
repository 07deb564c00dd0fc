//! Markdown-to-HTML conversion.
//!
//! The conversion itself is done by `pulldown_cmark`; the library only relies
//! on it being a pure function of the input text, so its result is carried
//! through the contracts under the name [`html_of`].

use vstd::prelude::*;

verus! {

/// The HTML fragment that the Markdown converter produces for the text `md`.
/// The converter runs with the strikethrough extension enabled and never
/// fails; the result depends on the input text alone.
pub uninterp spec fn html_of(md: Seq<char>) -> Seq<char>;

/// Relies on `pulldown_cmark::Parser::new_ext` and `pulldown_cmark::html::push_html`:
/// parsing is infallible and the produced HTML depends on the input text alone.
/// The strikethrough extension is enabled, as the site's posts use it.
#[verifier::external_body]
pub(crate) fn convert_markdown(md: &str) -> (r: String)
    ensures
        r@ == html_of(md@),
{
    let mut options = pulldown_cmark::Options::empty();
    options.insert(pulldown_cmark::Options::ENABLE_STRIKETHROUGH);
    let parser = pulldown_cmark::Parser::new_ext(md, options);
    let mut html_output = String::new();
    pulldown_cmark::html::push_html(&mut html_output, parser);
    html_output
}

} // verus!
