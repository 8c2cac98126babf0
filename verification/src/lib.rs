//! A commit-history miner: walks the revisions of a git repository and
//! produces a structured log, one entry per commit, with author and
//! committer identity, co-authors parsed from the commit message, and a
//! per-file change summary.

pub mod classify;
pub mod code_line_data;
pub mod coauthors;
pub mod git_logger;
pub mod hex;
mod gitio;
pub mod text;
