//! The ways in which a clone can fail.

use vstd::prelude::*;

verus! {

/// Why the pipeline stopped. Each stage has its own failure, and nothing
/// is retried or rolled back: a repository that was cloned stays in place
/// when adding the remote fails.
#[derive(Clone, Copy, Debug, PartialEq, Eq, Structural)]
pub enum CloneError {
    /// No host entry, or no user in it, to take the owner from.
    Configuration,
    /// No host entry, or no token in it.
    Authentication,
    /// The repository could not be looked up.
    RemoteLookup,
    /// The clone could not be started, or did not exit successfully.
    CloneProcess,
    /// Neither the user nor the clone named the directory.
    MissingDirectory,
    /// The remote could not be added.
    RemoteWiring,
}

/// What is said to the user about each failure.
pub open spec fn description(error: CloneError) -> Seq<char> {
    match error {
        CloneError::Configuration => "no github.com host or user found"@,
        CloneError::Authentication => "no github.com token found"@,
        CloneError::RemoteLookup => "failed to get repository information"@,
        CloneError::CloneProcess => "jj git clone failed"@,
        CloneError::MissingDirectory => "could not find the directory of the clone"@,
        CloneError::RemoteWiring => "failed to add the upstream remote"@,
    }
}

impl CloneError {
    /// The message for this failure.
    pub fn describe(&self) -> (message: String)
        ensures
            message@ == description(*self),
    {
        match self {
            CloneError::Configuration => "no github.com host or user found".to_owned(),
            CloneError::Authentication => "no github.com token found".to_owned(),
            CloneError::RemoteLookup => "failed to get repository information".to_owned(),
            CloneError::CloneProcess => "jj git clone failed".to_owned(),
            CloneError::MissingDirectory => "could not find the directory of the clone".to_owned(),
            CloneError::RemoteWiring => "failed to add the upstream remote".to_owned(),
        }
    }
}

} // verus!
