//! The build state machine: linear progress, fatal failures, the ignored
//! asset-copy outcome, and timestamp handling.

use sitegen::pipeline::{advance, next_action, Action, Stage};
use sitegen::time::{format_mtime, timestamp_parts, EpochTime};

#[test]
fn successful_build_walks_the_line() {
    let mut stage = Stage::Init;
    let expected = [
        Action::EnsureDirectories,
        Action::LoadPosts,
        Action::CopyAssets,
        Action::RenderIndex,
        Action::RenderPosts,
        Action::Finish,
    ];
    for action in expected {
        assert_eq!(next_action(&stage), action);
        stage = advance(&stage, true);
    }
    assert_eq!(stage, Stage::Done);
    assert_eq!(next_action(&stage), Action::Stop);
}

#[test]
fn any_failure_halts_the_build() {
    for stage in [Stage::Init, Stage::DirectoriesReady, Stage::AssetsCopied, Stage::IndexRendered]
    {
        let halted = advance(&stage, false);
        assert_eq!(halted, Stage::Halted);
        assert_eq!(next_action(&halted), Action::Stop);
        // Halting is final: no later outcome revives the build.
        assert_eq!(advance(&halted, true), Stage::Halted);
    }
}

#[test]
fn load_failure_stops_before_any_rendering() {
    let stage = advance(&Stage::DirectoriesReady, false);
    assert_eq!(stage, Stage::Halted);
    assert_ne!(next_action(&stage), Action::RenderIndex);
    assert_ne!(next_action(&stage), Action::RenderPosts);
}

#[test]
fn asset_copy_outcome_is_ignored() {
    assert_eq!(advance(&Stage::PostsLoaded, false), Stage::AssetsCopied);
    assert_eq!(advance(&Stage::PostsLoaded, true), Stage::AssetsCopied);
}

#[test]
fn timestamp_parts_after_epoch() {
    let t = EpochTime { before_epoch: false, secs: 1_431_648_000, nanos: 42 };
    assert_eq!(timestamp_parts(&t), (1_431_648_000, 42));
}

#[test]
fn timestamp_parts_before_epoch_borrows_a_second() {
    let t = EpochTime { before_epoch: true, secs: 5, nanos: 500_000_000 };
    assert_eq!(timestamp_parts(&t), (-6, 500_000_000));
    let whole = EpochTime { before_epoch: true, secs: 5, nanos: 0 };
    assert_eq!(timestamp_parts(&whole), (-5, 0));
}

#[test]
fn epoch_formats_as_local_datetime() {
    let t = EpochTime { before_epoch: false, secs: 0, nanos: 0 };
    let text = format_mtime(&t).expect("the epoch is in the calendar's range");
    // `YYYY-MM-DD HH:MM:SS` in some local zone near 1970-01-01.
    assert!(text.starts_with("1969-12-31") || text.starts_with("1970-01-01"));
    assert!(text.len() >= 19);
}

#[test]
fn malformed_fraction_formats_to_nothing() {
    let t = EpochTime { before_epoch: false, secs: 0, nanos: 2_000_000_000 };
    assert!(format_mtime(&t).is_none());
}
