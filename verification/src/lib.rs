//! Prefix file names by a date found in them, or by a date chosen for them.
//!
//! The library holds the logic: splitting a path into the parts that a
//! rename touches, matching file stems against date patterns, resolving and
//! formatting dates, the processing state machine that decides, path after
//! path, which rename to perform, and the state that an interactive front end
//! keeps while it asks the user.

pub mod text;
pub mod replacement;
pub mod processing;
pub mod matcher;
pub mod config;
pub mod application;
pub mod ui;
