//! Launching an installed game: re-validating the executable, and the errors
//! a launch reports.

use vstd::prelude::*;

verus! {

/// Why a launch failed.
#[derive(Clone, Debug)]
pub enum LaunchError {
    /// No file at the joined executable path.
    ExecutableNotFound { path: String },
    /// The operating system refused to start the process.
    SpawnFailed { reason: String },
}

impl LaunchError {
    pub open spec fn message_spec(&self) -> Seq<char> {
        match self {
            LaunchError::ExecutableNotFound { path } => "Game executable not found: "@ + path@,
            LaunchError::SpawnFailed { reason } => "Failed to launch game: "@ + reason@,
        }
    }

    /// The message shown to the user.
    pub fn message(&self) -> (r: String)
        ensures
            r@ == self.message_spec(),
    {
        match self {
            LaunchError::ExecutableNotFound { path } => {
                let mut m = String::from_str("Game executable not found: ");
                m.append(path.as_str());
                m
            },
            LaunchError::SpawnFailed { reason } => {
                let mut m = String::from_str("Failed to launch game: ");
                m.append(reason.as_str());
                m
            },
        }
    }
}

/// Decides whether a launch may go on to spawn the executable at
/// `exe_path`: only when a file is there now, since detection results may be
/// stale. On `Ok` the caller spawns the path it gets back.
pub fn check_executable(exe_path: String, exists: bool) -> (r: Result<String, LaunchError>)
    ensures
        exists ==> r == Ok::<String, LaunchError>(exe_path),
        !exists ==> (r matches Err(LaunchError::ExecutableNotFound { path }) && path == exe_path),
{
    if exists {
        Ok(exe_path)
    } else {
        Err(LaunchError::ExecutableNotFound { path: exe_path })
    }
}

/// The error for a process that could not be started, with the operating
/// system's reason.
pub fn spawn_failed(reason: String) -> (r: LaunchError)
    ensures
        r matches LaunchError::SpawnFailed { reason: x } && x == reason,
{
    LaunchError::SpawnFailed { reason }
}

/// The result a launch reports, from the check and the spawn's outcome:
/// the spawn is only consulted when the check passed.
pub fn launch_result(checked: Result<String, LaunchError>, spawn_error: Option<String>) -> (r: Result<(), String>)
    ensures
        checked is Err ==> (r matches Err(m) && m@ == checked->Err_0.message_spec()),
        checked is Ok && spawn_error is None ==> r is Ok,
        checked is Ok && spawn_error is Some ==> (r matches Err(m) && m@
            == "Failed to launch game: "@ + spawn_error->Some_0@),
{
    match checked {
        Err(e) => Err(e.message()),
        Ok(_) => match spawn_error {
            None => Ok(()),
            Some(reason) => Err(spawn_failed(reason).message()),
        },
    }
}

} // verus!
