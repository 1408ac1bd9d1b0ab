//! Favorites archiving: the ingestion and sync engine of a local media library.

pub mod adapter;
pub mod dedup;
pub mod digest;
pub mod engine;
pub mod laws;
pub mod library;
pub mod machine;
pub mod model;
pub mod naming;
pub mod query;
pub mod scrape;
pub mod session;
pub mod text;
