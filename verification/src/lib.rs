//! Persistence layer of a small log-ingestion service.
//!
//! Log entries are appended to a single-table store backed by an embedded
//! relational engine. The library owns the on-disk schema, the connection
//! lifecycle, and the write path; reading configuration from the process
//! environment and serving HTTP belong to the surrounding application.

mod backend;
pub mod config;
pub mod error;
pub mod schema;
pub mod store;
