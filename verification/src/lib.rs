//! A verified core for a feed-driven media downloader.
//!
//! The crate holds the logic of the downloader: deriving a safe filename
//! from an item's title, deciding from include/exclude patterns whether an
//! item is wanted, following a bounded chain of HTTP redirects, planning
//! one download per feed item, and summarising the outcomes of a run.
//! The surrounding I/O (the HTTP client, the filesystem, the command line)
//! lives outside the library and hands it plain values.

pub mod config;
pub mod feed;
pub mod fetch;
pub mod filename;
pub mod orchestrate;
pub mod worker;
