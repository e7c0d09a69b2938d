//! The styling loader: which npm tools may be fetched, where they are cached, how their
//! tarballs are checked and unpacked, and how a tool is run.
pub mod allowlist;
pub mod cache;
pub mod error;
pub mod loader;
pub mod registry;
pub mod runner;
