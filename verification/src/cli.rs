//! What the command line configures.

use vstd::prelude::*;

verus! {

/// The number of transfers that run at once where the user names none.
pub const DEFAULT_TASK_LIMIT: usize = 5;

/// The parsed command line.
#[derive(Debug)]
pub struct Cli {
    pub command: Commands,
    /// Automatic yes to prompts; run non-interactively.
    pub yes: bool,
    /// Limit of concurrent tasks.
    pub task_limit: usize,
}

/// What the tool is asked to do.
#[derive(Debug)]
pub enum Commands {
    /// Mirror every repository of an account.
    Backup {
        /// GitHub username.
        username: String,
        /// Backup directory.
        backup_dir: String,
        /// Include all branches from repositories in the backup.
        include_all_branches: bool,
        /// GitHub personal access token.
        token: String,
        /// Repositories to exclude from the backup, as glob expressions.
        exclude: Vec<String>,
    },
    /// Restore a repository working copy from a mirror backup.
    Restore {
        /// Path to the mirror of the repository to restore.
        path: String,
        /// Destination directory to restore the repository to.
        destination: String,
    },
}

/// How the backup directory named on the command line becomes an absolute path.
#[derive(Clone, Copy, Debug, PartialEq, Eq, Structural)]
pub enum BackupDirStep {
    /// The path is absolute and is used as it stands.
    UseAsGiven,
    /// The path is relative: it is resolved against the working directory,
    /// after the directory was created where it did not exist.
    Resolve { create_first: bool },
}

/// Decides how to make the backup directory absolute, from whether the path
/// is absolute and whether it exists.
pub fn backup_dir_step(is_absolute: bool, exists: bool) -> (step: BackupDirStep)
    ensures
        step == (if is_absolute {
            BackupDirStep::UseAsGiven
        } else {
            BackupDirStep::Resolve { create_first: !exists }
        }),
{
    if is_absolute {
        BackupDirStep::UseAsGiven
    } else {
        BackupDirStep::Resolve { create_first: !exists }
    }
}

} // verus!
