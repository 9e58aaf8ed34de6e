//! Decisions of a downloader for an artwork-hosting site: where an artwork's
//! files go and where they come from, which files to fetch, and how the
//! outcomes of many concurrent fetches settle into one result. Fetching,
//! writing and logging are left to the caller, which hands the outcomes back.

pub mod error;
pub mod laws;
pub mod naming;
pub mod outcome;
pub mod paths;
pub mod plan;
pub mod types;
