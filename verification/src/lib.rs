//! A GitHub releases manager: tracks projects, picks releases and assets,
//! follows downloads and runs post-download tasks.
pub mod text;
pub mod types;
pub mod manifest;
pub mod registry;
pub mod jobs;
pub mod github;
pub mod asset_regex;
pub mod pattern;
pub mod download;
pub mod pipeline;
pub mod worker;
pub mod session;
