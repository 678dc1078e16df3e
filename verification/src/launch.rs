//! The launch and edit decisions.
//!
//! Launching resolves the installed binary's path and hands the shell the
//! exact command to spawn: the binary detached from the terminal, with
//! `--project-manager` for a bare launch or `--editor` plus the project
//! file for editing.  A missing binary is the `NotInstalled` error, which
//! launching and editing report and never repair.

use vstd::prelude::*;

use crate::dirs::{spec_binary_path, FygDirs};
use crate::error::FygError;
use crate::version::GodotVersion;

verus! {

/// What the shell spawns: a binary and its argument list.
#[derive(Debug)]
pub struct LaunchCommand {
    pub binary_path: String,
    pub args: Vec<String>,
}

/// The command that launches `version` bare, provided its binary exists.
pub fn launch_plan(dirs: &FygDirs, version: &GodotVersion, binary_exists: bool) -> (r: Result<
    LaunchCommand,
    FygError,
>)
    ensures
        match r {
            Ok(c) => binary_exists && c.binary_path@ == spec_binary_path(dirs@, version@)
                && c.args@.len() == 1 && c.args@[0]@ == "--project-manager"@,
            Err(e) => !binary_exists && e == FygError::NotInstalled,
        },
{
    if !binary_exists {
        return Err(FygError::NotInstalled);
    }
    let mut args: Vec<String> = Vec::new();
    args.push(String::from_str("--project-manager"));
    Ok(LaunchCommand { binary_path: dirs.get_binary_path(version), args })
}

/// The command that opens `project_file` in `version`'s editor, provided
/// the version's binary exists.
pub fn edit_plan(dirs: &FygDirs, version: &GodotVersion, binary_exists: bool, project_file: &str) -> (r:
    Result<LaunchCommand, FygError>)
    ensures
        match r {
            Ok(c) => binary_exists && c.binary_path@ == spec_binary_path(dirs@, version@)
                && c.args@.len() == 2 && c.args@[0]@ == "--editor"@ && c.args@[1]@
                == project_file@,
            Err(e) => !binary_exists && e == FygError::NotInstalled,
        },
{
    if !binary_exists {
        return Err(FygError::NotInstalled);
    }
    let mut args: Vec<String> = Vec::new();
    args.push(String::from_str("--editor"));
    args.push(String::from_str(project_file));
    Ok(LaunchCommand { binary_path: dirs.get_binary_path(version), args })
}

} // verus!
