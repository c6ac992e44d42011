//! The process that a run starts.

use crate::paths::{pop_last_component, without_last_component};
use std::path::PathBuf;
use vstd::prelude::*;

verus! {

/// What to start: the executable, its arguments, and the directory it works
/// in. Without a directory the process works where its parent does.
#[derive(Debug, PartialEq, Eq)]
pub struct ProcessDescription {
    pub program: String,
    pub args: Vec<String>,
    pub current_dir: Option<PathBuf>,
}

/// The directory that a process works in: the override where it is an existing
/// directory, what is left of it without its last component where it is not,
/// and the directory set before where there is no override.
pub open spec fn effective_dir(
    before: Option<PathBuf>,
    cmd_dir: Option<PathBuf>,
    is_dir: bool,
) -> Option<PathBuf> {
    match cmd_dir {
        Some(dir) => Some(
            if is_dir {
                dir
            } else {
                without_last_component(dir)
            },
        ),
        None => before,
    }
}

/// Sets the directory that the process works in. `is_dir` says whether
/// `cmd_dir` is an existing directory: a file's path stands for the directory
/// that holds the file.
pub fn set_current_dir(cmd: &mut ProcessDescription, cmd_dir: Option<PathBuf>, is_dir: bool)
    ensures
        final(cmd).program == old(cmd).program,
        final(cmd).args == old(cmd).args,
        final(cmd).current_dir == effective_dir(old(cmd).current_dir, cmd_dir, is_dir),
{
    if let Some(cmd_dir) = cmd_dir {
        if is_dir {
            cmd.current_dir = Some(cmd_dir);
        } else {
            cmd.current_dir = Some(pop_last_component(cmd_dir));
        }
    }
}

} // verus!
