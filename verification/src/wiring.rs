//! The remote that points a fork at the repository it was forked from.

use vstd::prelude::*;
use crate::error::CloneError;
use crate::supervisor::{Invocation, InvocationView, TOOL};

verus! {

/// The directory to add the remote in: the one that the user named, else
/// the one that the clone reported.
pub open spec fn chosen_directory(
    explicit: Option<Seq<char>>,
    discovered: Option<Seq<char>>,
) -> Option<Seq<char>> {
    match explicit {
        Some(directory) => Some(directory),
        None => discovered,
    }
}

/// The arguments that add the remote `remote_name`, pointing at
/// `upstream_url`, to the repository in `directory`.
pub open spec fn remote_add_arguments(
    directory: Seq<char>,
    remote_name: Seq<char>,
    upstream_url: Seq<char>,
) -> Seq<Seq<char>> {
    seq!["-R"@, directory, "git"@, "remote"@, "add"@, remote_name, upstream_url]
}

/// The invocation that adds the remote, over character sequences.
pub open spec fn remote_add_invocation(
    directory: Seq<char>,
    remote_name: Seq<char>,
    upstream_url: Seq<char>,
) -> InvocationView {
    InvocationView {
        program: TOOL@,
        args: remote_add_arguments(directory, remote_name, upstream_url),
    }
}

/// Picks the directory to add the remote in.
pub fn upstream_directory(explicit: Option<String>, discovered: Option<String>) -> (r: Result<
    String,
    CloneError,
>)
    ensures
        match chosen_directory(explicit.deep_view(), discovered.deep_view()) {
            Some(directory) => r is Ok && r->Ok_0@ == directory,
            None => r == Err::<String, CloneError>(CloneError::MissingDirectory),
        },
{
    match explicit {
        Some(directory) => Ok(directory),
        None => match discovered {
            Some(directory) => Ok(directory),
            None => Err(CloneError::MissingDirectory),
        },
    }
}

/// Builds the invocation that adds the remote.
pub fn add_upstream(directory: &str, remote_name: &str, upstream_url: &str) -> (invocation:
    Invocation)
    ensures
        invocation@ == remote_add_invocation(directory@, remote_name@, upstream_url@),
{
    let mut args: Vec<String> = Vec::new();
    args.push("-R".to_owned());
    args.push(directory.to_owned());
    args.push("git".to_owned());
    args.push("remote".to_owned());
    args.push("add".to_owned());
    args.push(remote_name.to_owned());
    args.push(upstream_url.to_owned());
    assert(args.deep_view() =~= remote_add_arguments(directory@, remote_name@, upstream_url@));
    Invocation { program: TOOL.to_owned(), args }
}

/// The directory that the user named is the one used, whether or not the
/// clone reported another.
pub proof fn law_explicit_destination_wins(explicit: Seq<char>, discovered: Option<Seq<char>>)
    ensures
        chosen_directory(Some(explicit), discovered) == Some(explicit),
{
}

/// A directory is chosen unless there is none to choose from, and it is
/// one of the two that were offered.
pub proof fn law_directory_is_one_of_two(
    explicit: Option<Seq<char>>,
    discovered: Option<Seq<char>>,
)
    ensures
        chosen_directory(explicit, discovered) is None <==> explicit is None && discovered is None,
        chosen_directory(explicit, discovered) == explicit || chosen_directory(
            explicit,
            discovered,
        ) == discovered,
{
}

} // verus!
