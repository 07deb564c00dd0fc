//! Planning the output directory tree.
//!
//! The generated site lives under three directories beneath the output root:
//! the root of the generated tree, a posts subdirectory and an assets
//! subdirectory. The library plans which of them still have to be created,
//! from the root path and the caller's observation of which already exist;
//! the caller then creates exactly the planned ones, in order. Planning
//! against a fully initialized tree plans nothing, so a second run mutates
//! nothing — the initialization is idempotent.

use vstd::prelude::*;
use vstd::string::StringExecFns;

verus! {

/// The directory, beneath the root `root`, that the index `i` names: the
/// generated tree itself, then its posts subdirectory, then its assets
/// subdirectory.
pub open spec fn required_dir(root: Seq<char>, i: int) -> Seq<char> {
    if i == 0 {
        root + "/gen"@
    } else if i == 1 {
        root + "/gen/posts"@
    } else {
        root + "/gen/assets"@
    }
}

/// The directories that still have to be created, in creation order (parents
/// first), given which of the three required ones already exist.
pub open spec fn missing_spec(
    root: Seq<char>,
    gen_exists: bool,
    posts_exists: bool,
    assets_exists: bool,
) -> Seq<Seq<char>> {
    let with_gen: Seq<Seq<char>> = if gen_exists {
        Seq::empty()
    } else {
        seq![required_dir(root, 0)]
    };
    let with_posts: Seq<Seq<char>> = if posts_exists {
        with_gen
    } else {
        with_gen.push(required_dir(root, 1))
    };
    if assets_exists {
        with_posts
    } else {
        with_posts.push(required_dir(root, 2))
    }
}

/// The three directories required beneath `root`, in creation order.
pub fn required_dirs(root: &str) -> (r: Vec<String>)
    ensures
        r@.len() == 3,
        forall|i: int| 0 <= i < 3 ==> #[trigger] r@[i]@ == required_dir(root@, i),
{
    let mut v: Vec<String> = Vec::new();
    let mut d0 = root.to_owned();
    d0.append("/gen");
    v.push(d0);
    let mut d1 = root.to_owned();
    d1.append("/gen/posts");
    v.push(d1);
    let mut d2 = root.to_owned();
    d2.append("/gen/assets");
    v.push(d2);
    v
}

/// Plan the directories that still have to be created beneath `root`: each
/// required directory that the caller found missing, parents before children.
pub fn missing_dirs(root: &str, gen_exists: bool, posts_exists: bool, assets_exists: bool) -> (r:
    Vec<String>)
    ensures
        r@.len() == missing_spec(root@, gen_exists, posts_exists, assets_exists).len(),
        forall|i: int| 0 <= i < r@.len() ==> #[trigger] r@[i]@ == missing_spec(
            root@,
            gen_exists,
            posts_exists,
            assets_exists,
        )[i],
{
    let mut v: Vec<String> = Vec::new();
    if !gen_exists {
        let mut d = root.to_owned();
        d.append("/gen");
        v.push(d);
    }
    if !posts_exists {
        let mut d = root.to_owned();
        d.append("/gen/posts");
        v.push(d);
    }
    if !assets_exists {
        let mut d = root.to_owned();
        d.append("/gen/assets");
        v.push(d);
    }
    v
}

/// Initializing the output tree is idempotent: once every required directory
/// exists — as it does right after a first, completed run — a further run
/// plans no creation at all, and so performs no filesystem mutation.
pub proof fn lemma_initialization_idempotent(root: Seq<char>)
    ensures
        missing_spec(root, true, true, true).len() == 0,
{
}

/// The plan is complete: a directory the caller found missing is always in
/// the plan, so after the plan is carried out every required directory
/// exists.
pub proof fn lemma_plan_complete(
    root: Seq<char>,
    gen_exists: bool,
    posts_exists: bool,
    assets_exists: bool,
)
    ensures
        !gen_exists ==> missing_spec(root, gen_exists, posts_exists, assets_exists).contains(
            required_dir(root, 0),
        ),
        !posts_exists ==> missing_spec(root, gen_exists, posts_exists, assets_exists).contains(
            required_dir(root, 1),
        ),
        !assets_exists ==> missing_spec(root, gen_exists, posts_exists, assets_exists).contains(
            required_dir(root, 2),
        ),
{
    let plan = missing_spec(root, gen_exists, posts_exists, assets_exists);
    if !gen_exists {
        assert(plan[0] == required_dir(root, 0));
    }
    if !posts_exists {
        let i = if gen_exists { 0int } else { 1int };
        assert(plan[i] == required_dir(root, 1));
    }
    if !assets_exists {
        assert(plan[plan.len() - 1] == required_dir(root, 2));
    }
}

} // verus!
