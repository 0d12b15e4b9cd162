//! The launcher's own decisions around an update and a launch.

use vstd::prelude::*;

use crate::backstitch_update::VersionFile;
use crate::utils::{ErrorView, LauncherError};

verus! {

/// The versions to launch once the update is over: those it installed;
/// where it failed, those installed before, if any, else its error.
pub fn version_to_launch(
    update: Result<VersionFile, LauncherError>,
    current: Option<VersionFile>,
) -> (r: Result<VersionFile, LauncherError>)
    ensures
        match update {
            Ok(v) => r == Ok::<VersionFile, LauncherError>(v),
            Err(e) => match current {
                Some(c) => r == Ok::<VersionFile, LauncherError>(c),
                None => r == Err::<VersionFile, LauncherError>(e),
            },
        },
{
    match update {
        Ok(v) => Ok(v),
        Err(e) => match current {
            Some(c) => Ok(c),
            None => Err(e),
        },
    }
}

/// How a Godot run ended: it could not start (with the message held), or it
/// exited, successfully or with a code (`None` for a signal).
pub enum GodotExit {
    NotStarted(String),
    Exited { success: bool, code: Option<i32> },
}

/// The launcher's outcome for a Godot run: success where Godot exited
/// successfully; `Launch` where it could not start; `Exit` otherwise.
pub fn launch_outcome(exit: GodotExit) -> (r: Result<(), LauncherError>)
    ensures
        match exit {
            GodotExit::NotStarted(m) => r matches Err(e) && e@ == ErrorView::Launch(m@),
            GodotExit::Exited { success, code } => if success {
                r is Ok
            } else {
                r matches Err(e) && e@ == ErrorView::Exit(code)
            },
        },
{
    match exit {
        GodotExit::NotStarted(m) => Err(LauncherError::Launch(m)),
        GodotExit::Exited { success, code } => if success {
            Ok(())
        } else {
            Err(LauncherError::Exit(code))
        },
    }
}

} // verus!
