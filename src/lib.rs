//! Filesystem search: composable predicates over directory entries, and the
//! engine that turns the entries of one or more directory walks into results.

pub mod cli;
pub mod entry;
pub mod error;
pub mod filter;
pub mod matching;
pub mod search;
pub mod text;
