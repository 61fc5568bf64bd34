//! Core logic of a small interactive shell: line classification, builtin
//! dispatch decisions, search-path resolution, working-directory tracking,
//! and the exact texts of every message the shell prints.
//!
//! All I/O (reading lines, probing the filesystem, spawning children) is left
//! to the surrounding program; this crate decides, from plain values handed
//! in, what the shell does and says.

pub mod command;
pub mod external;
pub mod messages;
pub mod resolve;
pub mod session;
pub mod text;
