//! The build orchestrator, as a linear state machine.
//!
//! A build walks one straight line: directories are ensured, posts are
//! loaded, static assets are copied, the index is rendered, the posts are
//! rendered, and the build is done. The library decides, from the current
//! stage, which step runs next, and, from the step's outcome, which stage
//! follows: any failure halts the build for good — except the asset copy,
//! whose outcome is deliberately not inspected. The caller performs each
//! step's outside work and reports back whether it succeeded.

use vstd::prelude::*;

verus! {

/// Where a build stands.
#[derive(Debug, Clone, Copy, PartialEq, Eq, Structural)]
pub enum Stage {
    /// Nothing has run yet.
    Init,
    /// The output directory tree exists.
    DirectoriesReady,
    /// All posts loaded, none failing.
    PostsLoaded,
    /// The static assets were copied (their outcome is not inspected).
    AssetsCopied,
    /// The index page was rendered and written.
    IndexRendered,
    /// Every post's page was rendered and written.
    PostsRendered,
    /// The build completed.
    Done,
    /// A step failed; the build is over and nothing more runs.
    Halted,
}

/// The step that runs out of a given stage.
#[derive(Debug, Clone, Copy, PartialEq, Eq, Structural)]
pub enum Action {
    /// Ensure the output directory tree exists.
    EnsureDirectories,
    /// Load every post, all-or-nothing.
    LoadPosts,
    /// Copy the static assets into the generated tree.
    CopyAssets,
    /// Render and write the index page.
    RenderIndex,
    /// Render and write every post's page.
    RenderPosts,
    /// Report success and stop.
    Finish,
    /// Nothing runs: the build is over.
    Stop,
}

/// The step owed at each stage, in the pipeline's fixed order.
pub open spec fn action_of(s: Stage) -> Action {
    match s {
        Stage::Init => Action::EnsureDirectories,
        Stage::DirectoriesReady => Action::LoadPosts,
        Stage::PostsLoaded => Action::CopyAssets,
        Stage::AssetsCopied => Action::RenderIndex,
        Stage::IndexRendered => Action::RenderPosts,
        Stage::PostsRendered => Action::Finish,
        Stage::Done => Action::Stop,
        Stage::Halted => Action::Stop,
    }
}

/// The stage that follows a stage once its step reported `ok`: success moves
/// one stage forward, failure halts the build — except after the asset copy,
/// whose outcome is ignored, and in the two final stages, where nothing runs.
pub open spec fn step_spec(s: Stage, ok: bool) -> Stage {
    match s {
        Stage::Init => if ok {
            Stage::DirectoriesReady
        } else {
            Stage::Halted
        },
        Stage::DirectoriesReady => if ok {
            Stage::PostsLoaded
        } else {
            Stage::Halted
        },
        Stage::PostsLoaded => Stage::AssetsCopied,
        Stage::AssetsCopied => if ok {
            Stage::IndexRendered
        } else {
            Stage::Halted
        },
        Stage::IndexRendered => if ok {
            Stage::PostsRendered
        } else {
            Stage::Halted
        },
        Stage::PostsRendered => Stage::Done,
        Stage::Done => Stage::Done,
        Stage::Halted => Stage::Halted,
    }
}

/// Which step the caller must run next.
pub fn next_action(s: &Stage) -> (a: Action)
    ensures
        a == action_of(*s),
{
    match s {
        Stage::Init => Action::EnsureDirectories,
        Stage::DirectoriesReady => Action::LoadPosts,
        Stage::PostsLoaded => Action::CopyAssets,
        Stage::AssetsCopied => Action::RenderIndex,
        Stage::IndexRendered => Action::RenderPosts,
        Stage::PostsRendered => Action::Finish,
        Stage::Done => Action::Stop,
        Stage::Halted => Action::Stop,
    }
}

/// Move the build to the stage that follows, given whether the step that
/// just ran succeeded.
pub fn advance(s: &Stage, ok: bool) -> (n: Stage)
    ensures
        n == step_spec(*s, ok),
{
    match s {
        Stage::Init => if ok {
            Stage::DirectoriesReady
        } else {
            Stage::Halted
        },
        Stage::DirectoriesReady => if ok {
            Stage::PostsLoaded
        } else {
            Stage::Halted
        },
        Stage::PostsLoaded => Stage::AssetsCopied,
        Stage::AssetsCopied => if ok {
            Stage::IndexRendered
        } else {
            Stage::Halted
        },
        Stage::IndexRendered => if ok {
            Stage::PostsRendered
        } else {
            Stage::Halted
        },
        Stage::PostsRendered => Stage::Done,
        Stage::Done => Stage::Done,
        Stage::Halted => Stage::Halted,
    }
}

/// Where a build that started at `s` stands after the outcomes `oks`, one
/// outcome per step, oldest first.
pub open spec fn run_from(s: Stage, oks: Seq<bool>) -> Stage
    decreases oks.len(),
{
    if oks.len() == 0 {
        s
    } else {
        run_from(step_spec(s, oks[0]), oks.drop_first())
    }
}

/// A halted build stays halted: no later outcome, whatever it is, revives it.
pub proof fn lemma_halt_is_final(oks: Seq<bool>)
    ensures
        run_from(Stage::Halted, oks) == Stage::Halted,
    decreases oks.len(),
{
    if oks.len() > 0 {
        lemma_halt_is_final(oks.drop_first());
    }
}

/// Every failure is fatal: a failed step at any stage that inspects its
/// outcome halts the build, and the whole run then ends halted, never done.
pub proof fn lemma_failure_is_fatal(s: Stage, later: Seq<bool>)
    requires
        s != Stage::PostsLoaded,
        s != Stage::PostsRendered,
        s != Stage::Done,
    ensures
        step_spec(s, false) == Stage::Halted,
        run_from(step_spec(s, false), later) == Stage::Halted,
{
    lemma_halt_is_final(later);
}

/// A run completes exactly when every inspected step succeeded: five
/// outcomes, of which the third — the asset copy — is ignored, take a fresh
/// build to its final render; the sixth step only reports completion.
pub proof fn lemma_run_completes(oks: Seq<bool>)
    requires
        oks.len() == 6,
        oks[0],
        oks[1],
        oks[3],
        oks[4],
    ensures
        run_from(Stage::Init, oks) == Stage::Done,
{
    reveal_with_fuel(run_from, 7);
}

} // verus!
