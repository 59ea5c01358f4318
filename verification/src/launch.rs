//! The launcher's decision logic: validating the requested executable and
//! choosing the platform-specific invocation strategy. The caller performs
//! the existence check and the actual process creation and reports the
//! outcome; this module decides what to run, with which arguments, and in
//! which working directory.

use vstd::prelude::*;
use crate::game::view_opt;
use crate::text::{parent_of, parent_dir};

verus! {

/// The operating-system family the launcher runs under.
#[derive(Clone, Copy, Debug)]
pub enum OsFamily {
    Windows,
    MacOs,
    Linux,
}

/// Why a launch request was rejected before any process was created.
#[derive(Debug, PartialEq, Eq, Structural)]
pub enum LaunchError {
    /// No executable path was supplied.
    MissingInput,
    /// The supplied path does not exist on disk.
    NotFound,
}

/// A fully decided invocation: the program to start, its arguments, and the
/// working directory to start it in, plus the id of the game it launches.
pub struct LaunchCommand {
    pub game_id: String,
    pub program: String,
    pub args: Vec<String>,
    pub working_dir: Option<String>,
}

/// Decides how to launch the given executable. Fails with `MissingInput`
/// when no path is supplied and with `NotFound` when the path does not
/// exist; otherwise returns the invocation: on Windows and Linux the binary
/// itself, started in its parent directory (or in the path itself when it
/// has no parent); on macOS the system open facility with the path as its
/// application argument.
pub fn launch_game(game_id: String, executable_path: Option<String>, path_exists: bool, os:
    OsFamily) -> (r: Result<LaunchCommand, LaunchError>)
    ensures
        executable_path is None ==> r == Err::<LaunchCommand, LaunchError>(
            LaunchError::MissingInput,
        ),
        executable_path is Some && !path_exists ==> r == Err::<LaunchCommand, LaunchError>(
            LaunchError::NotFound,
        ),
        executable_path is Some && path_exists ==> r is Ok && ({
            let c = r.unwrap();
            let p = executable_path.unwrap()@;
            c.game_id@ == game_id@ && match os {
                OsFamily::MacOs => c.program@ == "open"@ && c.args@.len() == 2 && c.args@[0]@
                    == "-a"@ && c.args@[1]@ == p && c.working_dir is None,
                _ => c.program@ == p && c.args@.len() == 0 && view_opt(c.working_dir) == (
                if parent_of(p) is Some {
                    parent_of(p)
                } else {
                    Some(p)
                }),
            }
        }),
{
    let exe = match executable_path {
        Some(p) => p,
        None => {
            return Err(LaunchError::MissingInput);
        },
    };
    if !path_exists {
        return Err(LaunchError::NotFound);
    }
    match os {
        OsFamily::MacOs => {
            let mut args: Vec<String> = Vec::new();
            args.push(String::from_str("-a"));
            args.push(exe);
            Ok(
                LaunchCommand {
                    game_id,
                    program: String::from_str("open"),
                    args,
                    working_dir: None,
                },
            )
        },
        _ => {
            let working_dir = match parent_dir(exe.as_str()) {
                Some(d) => Some(d),
                None => Some(exe.clone()),
            };
            Ok(LaunchCommand { game_id, program: exe, args: Vec::new(), working_dir })
        },
    }
}

} // verus!
