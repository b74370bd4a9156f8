//! Portable-mode resolver and file-shim library.
//!
//! The library decides whether a desktop application should run against a
//! database file that lives beside its bundled resources ("portable mode"),
//! and routes the names of the small command surface that a host shell
//! exposes to its front end.  All file-system access is left to the caller:
//! the functions here work on plain paths, names and existence flags, so
//! every decision is verified.

pub mod commands;
pub mod resolver;
