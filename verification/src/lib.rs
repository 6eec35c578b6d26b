//! Project scaffolding and search-result bookkeeping for a small developer
//! command-line tool.
//!
//! The crate holds the rules of the tool: which template files belong to a
//! language, where each of them is fetched from and written to, in which
//! order the steps of a project's creation follow one another, and how a
//! page of search results is numbered, stored and looked up again. The
//! program around it performs the network, file and process work.

pub mod bash;
pub mod download;
pub mod execute;
pub mod file;
pub mod lang;
pub mod process_matches;
pub mod search;
pub mod text;
pub mod utils;
