//! Searching the web from the command line: the query, the results and
//! their store, and the configuration.

pub mod config;
pub mod models;
pub mod query;
