//! A scaffolder's core: which template modules a project chose, how those
//! choices become files, and how they are recorded in a shared settings file.
//!
//! Nothing in this crate touches the file system or the terminal. Functions
//! take the text of files and return the operations to perform; the caller
//! performs them.

pub mod actions;
pub mod merge;
pub mod models;
pub mod modify;
pub mod settings_finder;
pub mod templates;
pub mod text;
