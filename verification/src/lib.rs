//! A status-bar generator: a fixed, ordered set of blocks — audio volume,
//! battery charge, wall-clock time, network connectivity — each refreshed on
//! its own cadence, rendered to a short text fragment, and joined into one
//! line that is republished only when something actually changed.
//!
//! The crate holds the verified core: the block contract and its uniform
//! fail-soft poll policy, the four blocks' rendering, and the bar's sweep
//! and composition logic.  Reading the sources and writing the composed
//! line to the window manager are left to the surrounding program, which
//! hands the library plain values.

pub mod bar;
pub mod blocks;
pub mod text;
