//! A personal book library: books owned by users, shared tags and genres,
//! journal entries, ratings, reading statuses and lists.
//!
//! The library holds the rules of the service and proves them: what a request
//! may carry, which statements a change runs and what they do to the tables,
//! and how a book is put together with everything recorded about it from rows
//! read in batches. Running the statements and serving HTTP is left to the
//! caller.
pub mod errors;
pub mod models;
pub mod details;
pub mod statements;
pub mod validate;
pub mod headers;
pub mod updates;
pub mod model;
pub mod queries;
pub mod cover;
