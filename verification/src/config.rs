//! The project-side configuration: which engine version a project
//! directory is associated with, and where the project root lies relative
//! to the configuration file.
//!
//! Reading and deserializing the configuration file is the unverified
//! shell's work; it hands the plain values over in this type.

use vstd::prelude::*;

verus! {

/// A project's engine association.
#[derive(Debug, PartialEq)]
pub struct ProjectFygConfig {
    /// The engine version the project wants, as the user wrote it.
    pub version: String,
    /// An optional project root, relative to the configuration file's
    /// directory unless absolute.
    pub root: Option<String>,
}

} // verus!
