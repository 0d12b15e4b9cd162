//! Decision logic of the Backstitch launcher: which Backstitch and Godot
//! builds to fetch, where they come from, how release metadata and digests are
//! read, how configuration sources are combined, and how a download is
//! checked and resumed.
//!
//! The network, file system and terminal are driven by the launcher program,
//! which hands the results to the functions here.

pub mod text;

pub mod platform;
pub mod godot_urls;
pub mod config;
pub mod utils;
pub mod release_notes;
pub mod backstitch_update;
pub mod godot_update;
pub mod update;
pub mod patchwork;
pub mod launcher;
pub mod archive;
