//! The `Post` record and the derivation of its output file name.

use vstd::prelude::*;
use vstd::string::StrSliceExecFns;
use vstd::string::StringExecFns;

verus! {

/// One article of the site, built from a single Markdown source file.
///
/// A well-formed post (see [`post_wf`]) has a non-empty output name that ends
/// in `.html` and a non-empty title; the absence of a title is a load error,
/// never an empty string.
#[derive(Debug, Clone)]
pub struct Post {
    /// Output file name: the source name with its Markdown extension swapped
    /// for an HTML extension.
    pub filename: String,
    /// Inner HTML of the first level-2 heading of the rendered body.
    pub title: String,
    /// The full HTML rendering of the Markdown body.
    pub content: String,
    /// The source file's modification time, formatted in local time.
    pub date: String,
}

/// The extension a Markdown source name carries.
pub open spec fn md_suffix() -> Seq<char> {
    ".md"@
}

/// The extension a generated page name carries.
pub open spec fn html_suffix() -> Seq<char> {
    ".html"@
}

/// `s` ends with the suffix `suffix`.
pub open spec fn ends_with(s: Seq<char>, suffix: Seq<char>) -> bool {
    s.len() >= suffix.len() && s.subrange(s.len() - suffix.len(), s.len() as int) == suffix
}

/// `s` names a Markdown source: it ends in `.md`.
pub open spec fn is_md_name(s: Seq<char>) -> bool {
    ends_with(s, md_suffix())
}

/// The output name that belongs to the Markdown source name `s`: the
/// `.md` suffix is replaced by `.html`.
pub open spec fn derived_filename(s: Seq<char>) -> Seq<char> {
    s.subrange(0, s.len() - md_suffix().len()) + html_suffix()
}

/// A well-formed post: the output name is non-empty and ends in `.html`,
/// and the title is non-empty.
pub open spec fn post_wf(p: Post) -> bool {
    &&& p.filename@.len() > 0
    &&& ends_with(p.filename@, html_suffix())
    &&& p.title@.len() > 0
}

/// A name derived from a Markdown source name is non-empty and ends in
/// `.html`, whatever the stem was.
pub proof fn lemma_derived_filename_wf(s: Seq<char>)
    requires
        is_md_name(s),
    ensures
        derived_filename(s).len() > 0,
        ends_with(derived_filename(s), html_suffix()),
{
    reveal_strlit(".md");
    reveal_strlit(".html");
    let d = derived_filename(s);
    assert(d.subrange(d.len() - html_suffix().len(), d.len() as int) =~= html_suffix());
}

/// Swap the `.md` extension of a source name for `.html`.
pub fn derive_filename(name: &str) -> (r: String)
    requires
        is_md_name(name@),
    ensures
        r@ == derived_filename(name@),
{
    proof {
        reveal_strlit(".md");
        reveal_strlit(".html");
    }
    let n = name.unicode_len();
    let stem = name.substring_char(0, n - 3);
    let mut out = stem.to_owned();
    out.append(".html");
    proof {
        assert(out@ =~= derived_filename(name@));
    }
    out
}

} // verus!
