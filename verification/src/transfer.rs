//! The transfer of one repository: which command brings the local mirror up to
//! date, whether it has to run at all, and what its exit means.

use crate::caching::{needs_transfer, needs_transfer_spec, Cache, CachedRepo};
use crate::repo::{optional_text, texts, RepoDescriptor};
use vstd::prelude::*;

verus! {

/// The program that performs every transfer.
pub const TRANSFER_PROGRAM: &'static str = "git";

/// One invocation of the transfer program.
#[derive(Clone, Debug)]
pub struct GitInvocation {
    /// The arguments, without the program's name.
    pub args: Vec<String>,
    /// The directory to run in; `None` for the caller's own.
    pub working_dir: Option<String>,
}

/// A `GitInvocation` as plain text.
pub struct InvocationView {
    pub args: Seq<Seq<char>>,
    pub working_dir: Option<Seq<char>>,
}

impl View for GitInvocation {
    type V = InvocationView;

    open spec fn view(&self) -> InvocationView {
        InvocationView { args: texts(self.args@), working_dir: optional_text(self.working_dir) }
    }
}

/// `String::push` appends one character to a string. Trusted: the string
/// afterwards is the string before, followed by that character.
pub assume_specification[ String::push ](text: &mut String, ch: char)
    ensures
        final(text)@ == old(text)@.push(ch),
;

/// An identifier with every `/` turned into `_`.
pub open spec fn flattened(identifier: Seq<char>) -> Seq<char> {
    identifier.map_values(|c: char| if c == '/' { '_' } else { c })
}

/// The name of a repository's mirror directory under the backup root: the
/// identifier with every `/` turned into `_`, followed by `.git`.
pub open spec fn mirror_dir_name_spec(identifier: Seq<char>) -> Seq<char> {
    flattened(identifier) + ".git"@
}

/// Names the mirror directory of the repository `identifier`.
pub fn mirror_dir_name(identifier: &str) -> (name: String)
    ensures
        name@ == mirror_dir_name_spec(identifier@),
{
    let mut name = String::new();
    let chars = identifier.chars();
    for c in it: chars
        invariant
            it.seq() == identifier@,
            name@ == flattened(identifier@.take(it.index())),
    {
        name.push(if c == '/' { '_' } else { c });
    }
    assert(identifier@.take(identifier@.len() as int) == identifier@);
    name.append(".git");
    name
}

/// The branch that a single-branch fetch asks for when the remote names none.
pub open spec fn fallback_branch() -> Seq<char> {
    "main"@
}

/// A first transfer: `clone --mirror <url> <dest>` for a complete mirror,
/// `clone --single-branch <url> <dest>` otherwise, run in the caller's directory.
pub open spec fn clone_invocation(
    url: Seq<char>,
    dest: Seq<char>,
    include_all_branches: bool,
) -> InvocationView {
    InvocationView {
        args: seq![
            "clone"@,
            if include_all_branches { "--mirror"@ } else { "--single-branch"@ },
            url,
            dest,
        ],
        working_dir: None,
    }
}

/// An update of an existing mirror, run inside it: `fetch --all --prune` for all
/// branches, `fetch origin <branch>` otherwise.
pub open spec fn fetch_invocation(
    default_branch: Option<Seq<char>>,
    dest: Seq<char>,
    include_all_branches: bool,
) -> InvocationView {
    InvocationView {
        args: if include_all_branches {
            seq!["fetch"@, "--all"@, "--prune"@]
        } else {
            seq![
                "fetch"@,
                "origin"@,
                match default_branch {
                    Some(branch) => branch,
                    None => fallback_branch(),
                },
            ]
        },
        working_dir: Some(dest),
    }
}

/// The invocation that transfers a repository: a clone where no local mirror
/// exists yet, a fetch where one does.
pub open spec fn transfer_invocation_spec(
    url: Seq<char>,
    default_branch: Option<Seq<char>>,
    dest: Seq<char>,
    dest_exists: bool,
    include_all_branches: bool,
) -> InvocationView {
    if dest_exists {
        fetch_invocation(default_branch, dest, include_all_branches)
    } else {
        clone_invocation(url, dest, include_all_branches)
    }
}

/// Builds the invocation that brings the mirror at `dest` up to date from `url`.
pub fn transfer_invocation(
    url: &str,
    default_branch: &Option<String>,
    dest: &str,
    dest_exists: bool,
    include_all_branches: bool,
) -> (invocation: GitInvocation)
    ensures
        invocation@ == transfer_invocation_spec(
            url@,
            optional_text(*default_branch),
            dest@,
            dest_exists,
            include_all_branches,
        ),
{
    let mut args: Vec<String> = Vec::new();
    let working_dir: Option<String>;
    if !dest_exists {
        args.push("clone".to_owned());
        if include_all_branches {
            args.push("--mirror".to_owned());
        } else {
            args.push("--single-branch".to_owned());
        }
        args.push(url.to_owned());
        args.push(dest.to_owned());
        working_dir = None;
    } else {
        args.push("fetch".to_owned());
        if include_all_branches {
            args.push("--all".to_owned());
            args.push("--prune".to_owned());
        } else {
            args.push("origin".to_owned());
            match default_branch {
                Some(branch) => args.push(branch.clone()),
                None => args.push("main".to_owned()),
            }
        }
        working_dir = Some(dest.to_owned());
    }
    let invocation = GitInvocation { args, working_dir };
    assert(invocation@.args =~= transfer_invocation_spec(
        url@,
        optional_text(*default_branch),
        dest@,
        dest_exists,
        include_all_branches,
    ).args);
    invocation
}

/// Why a repository could not be backed up.
#[derive(Debug)]
pub enum TransferError {
    /// The remote reports no clone URL for the repository.
    NoCloneUrl { repo: String },
    /// The transfer program could not be started.
    LaunchFailed { repo: String, detail: String },
    /// The transfer program ended with anything but exit code 0.
    CommandFailed { repo: String, code: Option<i32> },
}

/// What is to be done for one repository.
#[derive(Debug)]
pub enum TransferStep {
    /// The local mirror is current; nothing runs.
    Skip,
    /// Run this invocation and report how it ended.
    Run(GitInvocation),
}

/// Decides what to do for `repo`, whose mirror is, or will be, at `dest`.
///
/// A repository without a clone URL fails, whatever the cache says. Otherwise the
/// repository is skipped when the cache shows it unchanged, and transferred when not.
pub fn plan_transfer(
    repo: &RepoDescriptor,
    cached: Option<&CachedRepo>,
    dest: &str,
    dest_exists: bool,
    include_all_branches: bool,
) -> (step: Result<TransferStep, TransferError>)
    ensures
        repo.clone_url is None <==> step is Err,
        step matches Err(e) ==> (e matches TransferError::NoCloneUrl { repo: name } && name@
            == repo.identifier_view()),
        step matches Ok(TransferStep::Skip) <==> repo.clone_url is Some && !needs_transfer_spec(
            match cached {
                Some(record) => Some(*record),
                None => None,
            },
            repo,
            dest_exists,
        ),
        step matches Ok(TransferStep::Run(invocation)) ==> invocation@ == transfer_invocation_spec(
            repo.clone_url->0@,
            optional_text(repo.default_branch),
            dest@,
            dest_exists,
            include_all_branches,
        ),
{
    let url = match &repo.clone_url {
        Some(url) => url,
        None => {
            return Err(TransferError::NoCloneUrl { repo: repo.identifier().to_owned() });
        },
    };
    if !needs_transfer(cached, repo, dest_exists) {
        return Ok(TransferStep::Skip);
    }
    Ok(
        TransferStep::Run(
            transfer_invocation(
                url.as_str(),
                &repo.default_branch,
                dest,
                dest_exists,
                include_all_branches,
            ),
        ),
    )
}

/// The record that `cache` holds for `repo`, found by the repository's identifier.
pub open spec fn cached_record(cache: Map<Seq<char>, CachedRepo>, repo: &RepoDescriptor) -> Option<
    CachedRepo,
> {
    if cache.contains_key(repo.identifier_view()) {
        Some(cache[repo.identifier_view()])
    } else {
        None
    }
}

/// Decides what to do for `repo` in a run that reads `cache`: looks the
/// repository up by its identifier and plans its transfer from what it finds.
pub fn plan_backup(
    cache: &Cache,
    repo: &RepoDescriptor,
    dest: &str,
    dest_exists: bool,
    include_all_branches: bool,
) -> (step: Result<TransferStep, TransferError>)
    ensures
        repo.clone_url is None <==> step is Err,
        step matches Err(e) ==> (e matches TransferError::NoCloneUrl { repo: name } && name@
            == repo.identifier_view()),
        step matches Ok(TransferStep::Skip) <==> repo.clone_url is Some && !needs_transfer_spec(
            cached_record(cache@, repo),
            repo,
            dest_exists,
        ),
        step matches Ok(TransferStep::Run(invocation)) ==> invocation@ == transfer_invocation_spec(
            repo.clone_url->0@,
            optional_text(repo.default_branch),
            dest@,
            dest_exists,
            include_all_branches,
        ),
{
    plan_transfer(repo, cache.get(repo.identifier()), dest, dest_exists, include_all_branches)
}

/// How the transfer program ended, as the caller observed it.
#[derive(Debug)]
pub enum ProcessReport {
    /// The program could not be started.
    LaunchFailed { detail: String },
    /// The program ran and ended; `code` is its exit code, absent when a signal ended it.
    Exited { code: Option<i32> },
}

/// The terminal state of one repository in a run.
#[derive(Debug)]
pub enum BackupOutcome {
    /// The mirror was current and nothing ran.
    Skipped,
    /// The transfer ran and succeeded.
    Transferred,
    /// The repository could not be backed up.
    Failed(TransferError),
}

impl BackupOutcome {
    /// A repository counts as backed up when it was skipped or transferred.
    pub open spec fn is_success(&self) -> bool {
        !(self is Failed)
    }

    /// Whether the repository counts as backed up.
    pub fn succeeded(&self) -> (ok: bool)
        ensures
            ok == self.is_success(),
    {
        match self {
            BackupOutcome::Failed(_) => false,
            _ => true,
        }
    }
}

/// Turns the end of the transfer program into the outcome for the repository `repo`.
///
/// Exit code 0 is the only success. Any other code, the absence of a code, and a
/// program that did not start are failures that carry the repository's name.
pub fn conclude_transfer(repo: &str, report: ProcessReport) -> (outcome: BackupOutcome)
    ensures
        match report {
            ProcessReport::Exited { code } => if code == Some(0i32) {
                outcome is Transferred
            } else {
                outcome matches BackupOutcome::Failed(
                    TransferError::CommandFailed { repo: name, code: reported },
                ) && name@ == repo@ && reported == code
            },
            ProcessReport::LaunchFailed { detail } => outcome matches BackupOutcome::Failed(
                TransferError::LaunchFailed { repo: name, detail: cause },
            ) && name@ == repo@ && cause == detail,
        },
{
    match report {
        ProcessReport::Exited { code: Some(0) } => BackupOutcome::Transferred,
        ProcessReport::Exited { code } => BackupOutcome::Failed(
            TransferError::CommandFailed { repo: repo.to_owned(), code },
        ),
        ProcessReport::LaunchFailed { detail } => BackupOutcome::Failed(
            TransferError::LaunchFailed { repo: repo.to_owned(), detail },
        ),
    }
}

} // verus!
