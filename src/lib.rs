//! A typed facade over the `git` command line: argument vectors for the
//! commands it runs, and verified parsers for what those commands print.

pub mod api;
pub mod converters;
pub mod git_commands;
pub mod text;
pub mod types;
