//! Per-project quick file list: an ordered, duplicate-free list of file paths
//! scoped to a project key derived from the working directory, kept in sync
//! with an on-disk store and driven by a small interactive session.

pub mod app;
pub mod direct;
pub mod key;
pub mod laws;
pub mod list;
pub mod store;
pub mod text;
