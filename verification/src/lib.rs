//! Rename files in a directory by a regular-expression substitution.
//!
//! The library decides, for each directory entry, what the pass does with
//! it: skip it (directories, unreadable names), print a preview line, or
//! rename it.  Reading the directory and touching the filesystem are left
//! to the binary around the library; the regular-expression engine is the
//! `regex` crate, called through a few trusted declarations.

pub mod entry;
pub mod pattern;
pub mod plan;
