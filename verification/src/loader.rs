//! Loading posts from Markdown sources, with all-or-nothing aggregation.
//!
//! The caller enumerates the Markdown sources and hands each over as a
//! [`SourceFile`] of plain values: the file's name, its raw contents and its
//! modification time, each absent when the filesystem could not provide it.
//! [`load_posts`] builds one [`Post`] per source and applies the aggregation
//! policy: if any source fails, the whole load fails with the collected
//! errors, in source order, and every successfully built post is discarded.
//! A site is never published with silently missing posts.

use vstd::prelude::*;
use crate::convert::convert_markdown;
use crate::convert::html_of;
use crate::post::Post;
use crate::post::derive_filename;
use crate::post::derived_filename;
use crate::post::is_md_name;
use crate::post::lemma_derived_filename_wf;
use crate::post::post_wf;
use crate::time::EpochTime;
use crate::time::format_mtime;
use crate::time::mtime_ok;
use crate::time::mtime_renders;
use crate::title::extract_title;
use crate::title::first_h2_inner;
use crate::title::title_found;

verus! {

/// What the filesystem yielded for one Markdown source: each part is absent
/// when it could not be obtained.
#[derive(Debug, Clone)]
pub struct SourceFile {
    /// The file's name as text; `None` when the path is not representable
    /// as text.
    pub name: Option<String>,
    /// The raw Markdown contents; `None` when the file could not be read.
    pub contents: Option<String>,
    /// The modification time; `None` when the metadata was unavailable.
    pub mtime: Option<EpochTime>,
}

/// The intermediate results of working one source through the converters:
/// the name carried over, the rendered body, the extracted title, and the
/// formatted date, each absent where its step failed.
#[derive(Debug, Clone)]
pub struct PostParts {
    /// The source file's name, carried over unchanged.
    pub name: Option<String>,
    /// The body rendered to HTML; `None` when the contents were unreadable.
    pub html: Option<String>,
    /// The extracted title; `None` when the body was unreadable or its
    /// rendering has no non-empty level-2 heading.
    pub title: Option<String>,
    /// The formatted modification time; `None` when the time was unavailable,
    /// malformed, or outside the calendar's range.
    pub date: Option<String>,
}

/// Why one source failed to load.
#[derive(Debug, Clone, Copy, PartialEq, Eq, Structural)]
pub enum LoadErrorKind {
    /// The source path is not representable as text.
    InvalidPath,
    /// Reading the file, its metadata or formatting its date failed.
    IoError,
    /// The rendered body has no non-empty level-2 heading.
    NoTitleFound,
}

/// One per-file load failure, naming the file it concerns.
#[derive(Debug, Clone)]
pub struct LoadError {
    /// The name of the offending source; empty when the path itself could
    /// not be read as text.
    pub path: String,
    /// What went wrong.
    pub kind: LoadErrorKind,
}

/// Every part needed to assemble a post is present, with a non-empty title.
pub open spec fn parts_ok(p: PostParts) -> bool {
    &&& p.name is Some
    &&& p.html is Some
    &&& p.title matches Some(t) && t@.len() > 0
    &&& p.date is Some
}

/// The error kind that belongs to a failed collection of parts: the first
/// missing part decides, in the order the pipeline produces them.
pub open spec fn parts_error_kind(p: PostParts) -> LoadErrorKind {
    if p.name is None {
        LoadErrorKind::InvalidPath
    } else if p.html is None {
        LoadErrorKind::IoError
    } else if !(p.title matches Some(t) && t@.len() > 0) {
        LoadErrorKind::NoTitleFound
    } else {
        LoadErrorKind::IoError
    }
}

/// The name an error about these parts reports: the source's name, or empty
/// text when even the name was unavailable.
pub open spec fn parts_path(p: PostParts) -> Seq<char> {
    match p.name {
        Some(n) => n@,
        None => Seq::empty(),
    }
}

/// `e` is the error that the failed parts `p` must produce.
pub open spec fn error_for(p: PostParts, e: LoadError) -> bool {
    &&& e.kind == parts_error_kind(p)
    &&& e.path@ == parts_path(p)
}

/// `q` is the post assembled from the complete parts `p`.
pub open spec fn post_for(p: PostParts, q: Post) -> bool {
    &&& q.filename@ == derived_filename(p.name->0@)
    &&& q.content@ == p.html->0@
    &&& q.title@ == p.title->0@
    &&& q.date@ == p.date->0@
}

/// The subsequence of `s` whose parts are incomplete, in order.
pub open spec fn bad_parts(s: Seq<PostParts>) -> Seq<PostParts>
    decreases s.len(),
{
    if s.len() == 0 {
        Seq::empty()
    } else if parts_ok(s.last()) {
        bad_parts(s.drop_last())
    } else {
        bad_parts(s.drop_last()).push(s.last())
    }
}

/// No parts are bad exactly when every collection of parts is complete.
pub proof fn lemma_bad_parts_empty(s: Seq<PostParts>)
    ensures
        bad_parts(s).len() == 0 <==> forall|i: int| 0 <= i < s.len() ==> parts_ok(#[trigger] s[i]),
    decreases s.len(),
{
    if s.len() > 0 {
        lemma_bad_parts_empty(s.drop_last());
        if bad_parts(s).len() == 0 {
            assert(forall|i: int| 0 <= i < s.len() - 1 ==> s.drop_last()[i] == #[trigger] s[i]);
        }
    }
}

/// There are never more bad parts than parts.
pub proof fn lemma_bad_parts_len(s: Seq<PostParts>)
    ensures
        bad_parts(s).len() <= s.len(),
    decreases s.len(),
{
    if s.len() > 0 {
        lemma_bad_parts_len(s.drop_last());
    }
}

/// Every incomplete collection of parts appears among the bad parts.
pub proof fn lemma_bad_parts_complete(s: Seq<PostParts>, i: int)
    requires
        0 <= i < s.len(),
        !parts_ok(s[i]),
    ensures
        exists|j: int| 0 <= j < bad_parts(s).len() && bad_parts(s)[j] == s[i],
    decreases s.len(),
{
    if i == s.len() - 1 {
        assert(bad_parts(s)[bad_parts(s).len() - 1] == s[i]);
    } else {
        assert(s.drop_last()[i] == s[i]);
        lemma_bad_parts_complete(s.drop_last(), i);
        let j = choose|j: int| 0 <= j < bad_parts(s.drop_last()).len()
            && bad_parts(s.drop_last())[j] == s[i];
        assert(bad_parts(s)[j] == s[i]);
    }
}

/// Work one source through the pipeline's converters: carry the name over,
/// render the body, extract the title, format the date. Each step that cannot
/// run leaves its part absent.
pub fn prepare_source(s: &SourceFile) -> (p: PostParts)
    ensures
        prepared_for(*s, p),
{
    let name = match &s.name {
        Some(n) => Some(n.clone()),
        None => None,
    };
    let (html, title) = match &s.contents {
        Some(c) => {
            let h = convert_markdown(c.as_str());
            let t = extract_title(h.as_str());
            (Some(h), t)
        },
        None => (None, None),
    };
    let date = match &s.mtime {
        Some(t) => format_mtime(t),
        None => None,
    };
    PostParts { name, html, title, date }
}

/// `p` is a faithful preparation of the source `s`: the name is carried over,
/// the body is the source's rendering, the title is the rendering's first
/// non-empty level-2 heading when there is one, and no date is produced for
/// an absent or malformed modification time.
pub open spec fn prepared_for(s: SourceFile, p: PostParts) -> bool {
    &&& p.name == s.name
    &&& (s.contents is None ==> p.html is None && p.title is None)
    &&& (s.contents matches Some(c) ==> p.html matches Some(h) && h@ == html_of(c@))
    &&& (s.contents matches Some(c) ==> (p.title is Some <==> title_found(html_of(c@))))
    &&& (s.contents is Some && p.title is Some ==> p.title->0@ == first_h2_inner(
        html_of(s.contents->0@),
    )->0 && p.title->0@.len() > 0)
    &&& (!(s.mtime matches Some(t) && mtime_ok(t)) ==> p.date is None)
    &&& (s.mtime is Some && mtime_ok(s.mtime->0) ==> (p.date is Some <==> mtime_renders(
        s.mtime->0,
    )))
}

/// Assemble one post from its parts, or report the first missing part.
pub fn part_to_post(p: &PostParts) -> (r: Result<Post, LoadError>)
    requires
        p.name matches Some(n) ==> is_md_name(n@),
    ensures
        r is Ok <==> parts_ok(*p),
        r matches Ok(q) ==> post_for(*p, q) && post_wf(q),
        r matches Err(e) ==> error_for(*p, e),
{
    match &p.name {
        None => Err(LoadError { path: String::new(), kind: LoadErrorKind::InvalidPath }),
        Some(name) => match &p.html {
            None => Err(LoadError { path: name.clone(), kind: LoadErrorKind::IoError }),
            Some(html) => match &p.title {
                None => Err(LoadError { path: name.clone(), kind: LoadErrorKind::NoTitleFound }),
                Some(title) => if title.as_str().is_empty() {
                    Err(LoadError { path: name.clone(), kind: LoadErrorKind::NoTitleFound })
                } else {
                    match &p.date {
                        None => Err(LoadError { path: name.clone(), kind: LoadErrorKind::IoError }),
                        Some(date) => {
                            let filename = derive_filename(name.as_str());
                            proof {
                                lemma_derived_filename_wf(name@);
                            }
                            Ok(
                                Post {
                                    filename,
                                    title: title.clone(),
                                    content: html.clone(),
                                    date: date.clone(),
                                },
                            )
                        },
                    }
                },
            },
        },
    }
}

/// Assemble posts from prepared parts under the all-or-nothing policy: when
/// every collection of parts is complete the posts come back, one per source
/// in order; when any is incomplete, exactly the incomplete ones' errors come
/// back, in source order, and no posts at all.
pub fn assemble_posts(parts: &Vec<PostParts>) -> (r: Result<Vec<Post>, Vec<LoadError>>)
    requires
        forall|i: int| 0 <= i < parts@.len() ==> (#[trigger] parts@[i].name matches Some(n)
            ==> is_md_name(n@)),
    ensures
        r is Ok <==> bad_parts(parts@).len() == 0,
        r matches Ok(posts) ==> posts@.len() == parts@.len() && forall|i: int|
            0 <= i < parts@.len() ==> post_for(parts@[i], #[trigger] posts@[i]) && post_wf(
                posts@[i],
            ),
        r matches Err(es) ==> es@.len() == bad_parts(parts@).len() && forall|j: int|
            0 <= j < es@.len() ==> error_for(bad_parts(parts@)[j], #[trigger] es@[j]),
{
    let ghost all = parts@;
    let mut posts: Vec<Post> = Vec::new();
    let mut errors: Vec<LoadError> = Vec::new();
    let n = parts.len();
    let mut i: usize = 0;
    while i < n
        invariant
            i <= n,
            n == all.len(),
            parts@ == all,
            forall|k: int| 0 <= k < all.len() ==> (#[trigger] all[k].name matches Some(nm)
                ==> is_md_name(nm@)),
            errors@.len() == bad_parts(all.take(i as int)).len(),
            forall|j: int| 0 <= j < errors@.len() ==> error_for(
                bad_parts(all.take(i as int))[j],
                #[trigger] errors@[j],
            ),
            errors@.len() == 0 ==> posts@.len() == i && forall|k: int| 0 <= k < i ==> post_for(
                all[k],
                #[trigger] posts@[k],
            ) && post_wf(posts@[k]),
        decreases n - i,
    {
        proof {
            assert(all.take(i + 1).drop_last() =~= all.take(i as int));
            assert(all.take(i + 1).last() == all[i as int]);
        }
        match part_to_post(&parts[i]) {
            Ok(q) => posts.push(q),
            Err(e) => errors.push(e),
        }
        i += 1;
    }
    proof {
        assert(all.take(n as int) =~= all);
    }
    if errors.len() == 0 {
        proof {
            lemma_bad_parts_empty(all);
        }
        Ok(posts)
    } else {
        Err(errors)
    }
}

/// Everything a source needs in order to load: a textual name, readable
/// contents whose rendering has a non-empty level-2 heading, and a
/// well-formed modification time. Only the date formatting, which depends on
/// the machine's calendar range, lies outside this predicate.
pub open spec fn source_ok(s: SourceFile) -> bool {
    &&& s.name is Some
    &&& s.contents is Some
    &&& title_found(html_of(s.contents->0@))
    &&& s.mtime matches Some(t) && mtime_ok(t)
}

/// The source loads and nothing can stand in the way of its post: beyond
/// [`source_ok`], the calendar also accepts its normalized modification time,
/// so the date formats. This is the full success condition of a load.
pub open spec fn source_renders(s: SourceFile) -> bool {
    source_ok(s) && mtime_renders(s.mtime->0)
}

/// The error kind a failing source earns: the first failing step decides.
pub open spec fn source_error_kind(s: SourceFile) -> LoadErrorKind {
    if s.name is None {
        LoadErrorKind::InvalidPath
    } else if s.contents is None {
        LoadErrorKind::IoError
    } else if !title_found(html_of(s.contents->0@)) {
        LoadErrorKind::NoTitleFound
    } else {
        LoadErrorKind::IoError
    }
}

/// The name an error about the source `s` reports.
pub open spec fn source_path(s: SourceFile) -> Seq<char> {
    match s.name {
        Some(n) => n@,
        None => Seq::empty(),
    }
}

/// The subsequence of `ss` whose sources cannot load, in order.
pub open spec fn bad_sources(ss: Seq<SourceFile>) -> Seq<SourceFile>
    decreases ss.len(),
{
    if ss.len() == 0 {
        Seq::empty()
    } else if source_ok(ss.last()) {
        bad_sources(ss.drop_last())
    } else {
        bad_sources(ss.drop_last()).push(ss.last())
    }
}

/// `q` is the post that loading the source `s` must produce: its name with
/// the extension swapped, its rendered body, and that body's first level-2
/// heading's inner HTML as the title, taken over verbatim.
pub open spec fn loaded_post_for(s: SourceFile, q: Post) -> bool {
    &&& q.filename@ == derived_filename(s.name->0@)
    &&& q.content@ == html_of(s.contents->0@)
    &&& q.title@ == first_h2_inner(html_of(s.contents->0@))->0
    &&& post_wf(q)
}

/// A faithful preparation fails exactly where its source does — the date
/// formatting fails exactly on an instant the calendar rejects — and where
/// the source fails, the prepared parts earn the same error.
proof fn lemma_prepared_error(s: SourceFile, p: PostParts)
    requires
        prepared_for(s, p),
    ensures
        parts_ok(p) ==> source_ok(s),
        source_renders(s) ==> parts_ok(p),
        !source_ok(s) ==> !parts_ok(p),
        !source_ok(s) ==> parts_error_kind(p) == source_error_kind(s),
        parts_path(p) == source_path(s),
{
}

/// Pointwise, a failing source makes failing parts, so a prepared run has at
/// least as many bad parts as it had bad sources.
proof fn lemma_bad_counts(ss: Seq<SourceFile>, ps: Seq<PostParts>)
    requires
        ss.len() == ps.len(),
        forall|k: int| 0 <= k < ss.len() ==> prepared_for(#[trigger] ss[k], ps[k]),
    ensures
        bad_sources(ss).len() <= bad_parts(ps).len(),
    decreases ss.len(),
{
    if ss.len() > 0 {
        assert(forall|k: int| 0 <= k < ss.len() - 1 ==> ss.drop_last()[k] == #[trigger] ss[k]
            && ps.drop_last()[k] == ps[k]);
        lemma_bad_counts(ss.drop_last(), ps.drop_last());
        lemma_prepared_error(ss.last(), ps.last());
    }
}

/// Load the posts of a site from its enumerated Markdown sources, under the
/// all-or-nothing policy: all posts, in source order, or all errors, in
/// source order, never a mixture. Success is owed whenever every source is
/// loadable and the calendar accepts every modification time; any unloadable
/// source forces the error list.
pub fn load_posts(sources: &Vec<SourceFile>) -> (r: Result<Vec<Post>, Vec<LoadError>>)
    requires
        forall|i: int| 0 <= i < sources@.len() ==> (#[trigger] sources@[i].name matches Some(n)
            ==> is_md_name(n@)),
    ensures
        sources@.len() == 0 ==> (r matches Ok(posts) && posts@.len() == 0),
        (forall|i: int| 0 <= i < sources@.len() ==> source_renders(#[trigger] sources@[i]))
            ==> r is Ok,
        r matches Ok(posts) ==> posts@.len() == sources@.len() && forall|i: int|
            0 <= i < sources@.len() ==> source_ok(#[trigger] sources@[i]) && loaded_post_for(
                sources@[i],
                posts@[i],
            ),
        (exists|i: int| 0 <= i < sources@.len() && !source_ok(#[trigger] sources@[i])) ==> r is Err,
        r matches Err(es) ==> 1 <= es@.len() <= sources@.len() && es@.len() >= bad_sources(
            sources@,
        ).len(),
        r matches Err(es) ==> forall|i: int|
            0 <= i < sources@.len() && !source_ok(#[trigger] sources@[i]) ==> exists|j: int|
                0 <= j < es@.len() && es@[j].kind == source_error_kind(sources@[i])
                    && es@[j].path@ == source_path(sources@[i]),
{
    let ghost all = sources@;
    let mut parts: Vec<PostParts> = Vec::new();
    let n = sources.len();
    let mut i: usize = 0;
    while i < n
        invariant
            i <= n,
            n == all.len(),
            sources@ == all,
            forall|k: int| 0 <= k < all.len() ==> (#[trigger] all[k].name matches Some(nm)
                ==> is_md_name(nm@)),
            parts@.len() == i,
            forall|k: int| 0 <= k < i ==> prepared_for(#[trigger] all[k], parts@[k]),
        decreases n - i,
    {
        parts.push(prepare_source(&sources[i]));
        i += 1;
    }
    proof {
        assert forall|k: int|
            0 <= k < parts@.len() implies (#[trigger] parts@[k].name matches Some(nm)
            ==> is_md_name(nm@)) by {
            assert(prepared_for(all[k], parts@[k]));
            assert(all[k].name matches Some(nm) ==> is_md_name(nm@));
        }
    }
    let r = assemble_posts(&parts);
    proof {
        lemma_bad_counts(all, parts@);
        lemma_bad_parts_len(parts@);
        if forall|k: int| 0 <= k < all.len() ==> source_renders(#[trigger] all[k]) {
            assert forall|k: int| 0 <= k < parts@.len() implies parts_ok(
                #[trigger] parts@[k],
            ) by {
                lemma_prepared_error(all[k], parts@[k]);
            }
            lemma_bad_parts_empty(parts@);
        }
        match r {
            Ok(ref _posts) => {
                lemma_bad_parts_empty(parts@);
                assert forall|k: int| 0 <= k < all.len() implies source_ok(
                    #[trigger] all[k],
                ) by {
                    lemma_prepared_error(all[k], parts@[k]);
                }
            },
            Err(ref es) => {
                assert forall|k: int|
                    0 <= k < all.len() && !source_ok(#[trigger] all[k]) implies exists|j: int|
                    0 <= j < es@.len() && es@[j].kind == source_error_kind(all[k])
                        && es@[j].path@ == source_path(all[k]) by {
                    lemma_prepared_error(all[k], parts@[k]);
                    lemma_bad_parts_complete(parts@, k);
                    let j = choose|j: int|
                        0 <= j < bad_parts(parts@).len() && bad_parts(parts@)[j] == parts@[k];
                    assert(error_for(bad_parts(parts@)[j], es@[j]));
                }
            },
        }
    }
    r
}

/// A source whose rendered body has no usable level-2 heading cannot load,
/// and the error it earns is `NoTitleFound`; by the contract of
/// [`load_posts`], the whole load then fails and its error list holds that
/// error under the source's name.
pub proof fn lemma_missing_title_fails(s: SourceFile)
    requires
        s.name is Some,
        s.contents matches Some(c) && !title_found(html_of(c@)),
    ensures
        !source_ok(s),
        source_error_kind(s) == LoadErrorKind::NoTitleFound,
{
}

/// All-or-nothing aggregation: as soon as one source among many cannot load,
/// the load as a whole has at least one error owed, and a successful result
/// is impossible — no partial publish.
pub proof fn lemma_all_or_nothing(ss: Seq<SourceFile>, i: int)
    requires
        0 <= i < ss.len(),
        !source_ok(ss[i]),
    ensures
        bad_sources(ss).len() >= 1,
    decreases ss.len(),
{
    if i == ss.len() - 1 {
    } else {
        assert(ss.drop_last()[i] == ss[i]);
        lemma_all_or_nothing(ss.drop_last(), i);
    }
}

} // verus!
