//! A recursive file search engine: configuration, the per-entry filter, the
//! traversal that aggregates outcomes, and the report decisions.
pub mod config;
pub mod filter;
pub mod laws;
pub mod matching;
pub mod report;
pub mod traversal;

