//! A verified core for a small static-site builder.
//!
//! The library covers the build pipeline of the site generator: deriving
//! output names for Markdown sources, converting Markdown to HTML, extracting
//! a post title from the rendered fragment, turning file modification times
//! into printable timestamps, aggregating per-file load results under an
//! all-or-nothing policy, planning the output directory tree, minifying the
//! rendered pages, and sequencing the whole build as a linear state machine.
//! Filesystem traffic, template rendering and process wiring live outside the
//! library and hand it plain values.

pub mod convert;
pub mod dirs;
pub mod loader;
pub mod pipeline;
pub mod post;
pub mod render;
pub mod time;
pub mod title;
