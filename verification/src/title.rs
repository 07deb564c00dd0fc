//! Title extraction from a rendered HTML fragment.
//!
//! The title of a post is the inner HTML of the first level-2 heading of its
//! rendered body. Finding that heading is a structural HTML query done by
//! `scraper`; its result is carried through the contracts under the name
//! [`first_h2_inner`]. A fragment whose first level-2 heading is empty yields
//! no title: a post's title is never the empty string.

use vstd::prelude::*;

verus! {

/// The inner HTML of the first level-2 heading element of the fragment `html`,
/// or `None` when the fragment holds no such element. The result depends on
/// the fragment alone.
pub uninterp spec fn first_h2_inner(html: Seq<char>) -> Option<Seq<char>>;

/// The fragment `html` yields a usable title: it has a level-2 heading and
/// that heading's inner HTML is non-empty.
pub open spec fn title_found(html: Seq<char>) -> bool {
    first_h2_inner(html) matches Some(t) && t.len() > 0
}

/// Relies on `scraper::Html::parse_fragment`, `scraper::Selector::parse` and
/// `scraper::ElementRef::inner_html`: parsing a fragment is infallible, the
/// selector `"h2"` is valid, and the first selected element's inner HTML
/// depends on the fragment alone.
#[verifier::external_body]
fn first_h2_inner_html(html: &str) -> (r: Option<String>)
    ensures
        r is Some <==> first_h2_inner(html@) is Some,
        r matches Some(t) ==> t@ == first_h2_inner(html@)->0,
{
    let fragment = scraper::Html::parse_fragment(html);
    let selector = scraper::Selector::parse("h2").unwrap();
    match fragment.select(&selector).next() {
        Some(element) => Some(element.inner_html()),
        None => None,
    }
}

/// Extract the post title from a rendered HTML fragment: the inner HTML of
/// the first level-2 heading, provided it is non-empty.
pub fn extract_title(fragment: &str) -> (r: Option<String>)
    ensures
        r is Some <==> title_found(fragment@),
        r matches Some(t) ==> t@ == first_h2_inner(fragment@)->0 && t@.len() > 0,
{
    match first_h2_inner_html(fragment) {
        Some(t) => {
            if t.as_str().is_empty() {
                None
            } else {
                Some(t)
            }
        },
        None => None,
    }
}

} // verus!
