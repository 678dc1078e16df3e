//! The uninstall decision.
//!
//! Uninstalling computes the version's install directory and removes it if
//! it exists; an absent directory is already the desired state, so the
//! operation succeeds without touching the filesystem.  The shell reports
//! whether the directory exists and performs the single removal this plan
//! calls for.

use vstd::prelude::*;

use crate::dirs::{spec_install_dir, FygDirs};
use crate::version::GodotVersion;

verus! {

/// Decide what uninstalling `version` must do, given whether its install
/// directory currently exists.
///
/// Uninstall is idempotent: for a never-installed identity the result is
/// `None` — success with no filesystem mutation at all.  Otherwise the one
/// directory to remove, recursively, is returned; no cached archive is
/// ever touched, since cache and data have independent lifecycles.
pub fn uninstall_plan(dirs: &FygDirs, version: &GodotVersion, install_dir_exists: bool) -> (r:
    Option<String>)
    ensures
        r is Some <==> install_dir_exists,
        match r {
            Some(p) => p@ == spec_install_dir(dirs@, version@),
            None => true,
        },
{
    if install_dir_exists {
        Some(dirs.get_install_dir(version))
    } else {
        None
    }
}

} // verus!
