//! The remote repository as the listing service describes it.

use vstd::prelude::*;

verus! {

/// The texts that a sequence of strings holds.
pub open spec fn texts(strings: Seq<String>) -> Seq<Seq<char>> {
    strings.map_values(|s: String| s@)
}

/// The text of an optional string.
pub open spec fn optional_text(string: Option<String>) -> Option<Seq<char>> {
    match string {
        Some(s) => Some(s@),
        None => None,
    }
}

/// A point in time: whole seconds since the Unix epoch, and the nanoseconds within
/// that second. Two timestamps denote the same instant exactly when both fields agree.
#[derive(Clone, Copy, Debug, PartialEq, Eq, Structural)]
pub struct Timestamp {
    pub secs: i64,
    pub nanos: u32,
}

/// What the listing service reports about one repository. Every field but the short
/// name may be absent.
#[derive(Clone, Debug)]
pub struct RepoDescriptor {
    /// Short name, without the owner.
    pub name: String,
    /// `owner/name`.
    pub full_name: Option<String>,
    pub clone_url: Option<String>,
    pub default_branch: Option<String>,
    /// Size as reported by the remote.
    pub size: Option<u32>,
    /// Time of the last push as reported by the remote.
    pub pushed_at: Option<Timestamp>,
}

impl RepoDescriptor {
    /// The name a repository is known by everywhere in a run: the full `owner/name`
    /// form where the remote reports one, the short name otherwise.
    pub open spec fn identifier_view(&self) -> Seq<char> {
        match self.full_name {
            Some(full) => full@,
            None => self.name@,
        }
    }

    /// Returns the identifier of the repository.
    pub fn identifier(&self) -> (id: &str)
        ensures
            id@ == self.identifier_view(),
    {
        match &self.full_name {
            Some(full) => full.as_str(),
            None => self.name.as_str(),
        }
    }
}

} // verus!
