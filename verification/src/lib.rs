//! Compare a line range of a file at one git reference with a line range at
//! another, and render the difference as text or as a structured line diff.
//!
//! The crate holds the decisions of the tool: how a line range is cut out of a
//! text, how a list of change runs becomes numbered and context-pruned diff
//! lines, how changed paths are ordered, and how the commands validate and
//! combine their inputs. Repositories, files, terminals and sockets are the
//! caller's: they are reached through the traits `GitProvider`, `Manager`,
//! `Storage`, `FileSystem`, `Serializer` and `Runner`, or what was read from
//! them is handed in.

pub mod commands;
pub mod config;
pub mod diff;
pub mod git;
pub mod number;
pub mod text;
