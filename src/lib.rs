//! A dotfile manager: a single managed git repository whose tracked files are
//! copied back into the home directory.
//!
//! The library holds the decisions of every operation (where things go, which
//! files are copied, which commit is made, how remote history is reconciled and
//! how failures are classified); the caller performs the file-system and
//! network work that those decisions describe.
pub mod error;
pub mod git;
pub mod handler;
pub mod paths;
pub mod utils;
