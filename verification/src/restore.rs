//! Restoring a working copy from a local mirror.

use crate::transfer::{GitInvocation, InvocationView, ProcessReport};
use vstd::prelude::*;

verus! {

/// Why a restore failed.
#[derive(Debug)]
pub enum RestoreError {
    /// The mirror to restore from does not exist.
    MirrorMissing { path: String },
    /// The place to restore to is taken.
    DestinationExists { path: String },
    /// The transfer program could not be started.
    LaunchFailed { detail: String },
    /// The transfer program ended with anything but exit code 0.
    CommandFailed { code: Option<i32> },
}

/// The one command of a restore: `clone <mirror> <destination>`, run in the caller's directory.
pub open spec fn restore_invocation(mirror: Seq<char>, destination: Seq<char>) -> InvocationView {
    InvocationView { args: seq!["clone"@, mirror, destination], working_dir: None }
}

/// Plans the restore of the mirror at `mirror_path` to `destination`.
///
/// A missing mirror and an existing destination are refused, the mirror first,
/// before anything runs. Otherwise the result is the clone to run.
pub fn restore(
    mirror_path: &str,
    mirror_exists: bool,
    destination: &str,
    destination_exists: bool,
) -> (plan: Result<GitInvocation, RestoreError>)
    ensures
        match plan {
            Ok(invocation) => mirror_exists && !destination_exists && invocation@
                == restore_invocation(mirror_path@, destination@),
            Err(RestoreError::MirrorMissing { path }) => !mirror_exists && path@ == mirror_path@,
            Err(RestoreError::DestinationExists { path }) => mirror_exists && destination_exists
                && path@ == destination@,
            Err(_) => false,
        },
{
    if !mirror_exists {
        return Err(RestoreError::MirrorMissing { path: mirror_path.to_owned() });
    }
    if destination_exists {
        return Err(RestoreError::DestinationExists { path: destination.to_owned() });
    }
    let mut args: Vec<String> = Vec::new();
    args.push("clone".to_owned());
    args.push(mirror_path.to_owned());
    args.push(destination.to_owned());
    let invocation = GitInvocation { args, working_dir: None };
    assert(invocation@.args =~= restore_invocation(mirror_path@, destination@).args);
    Ok(invocation)
}

/// Turns the end of the clone into the result of the restore: exit code 0 is the
/// only success.
pub fn conclude_restore(report: ProcessReport) -> (result: Result<(), RestoreError>)
    ensures
        match report {
            ProcessReport::Exited { code } => if code == Some(0i32) {
                result is Ok
            } else {
                result matches Err(RestoreError::CommandFailed { code: reported }) && reported
                    == code
            },
            ProcessReport::LaunchFailed { detail } => result matches Err(
                RestoreError::LaunchFailed { detail: cause },
            ) && cause == detail,
        },
{
    match report {
        ProcessReport::Exited { code: Some(0) } => Ok(()),
        ProcessReport::Exited { code } => Err(RestoreError::CommandFailed { code }),
        ProcessReport::LaunchFailed { detail } => Err(RestoreError::LaunchFailed { detail }),
    }
}

} // verus!
