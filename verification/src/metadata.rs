//! Who owns the repository, with which token it is looked up, and what is
//! kept of the answer.

use vstd::prelude::*;
use crate::error::CloneError;
use crate::source::qualified;

verus! {

/// The host that repositories are looked up on.
pub const GITHUB_COM: &'static str = "github.com";

/// What every repository's web address begins with.
pub const GITHUB_URL: &'static str = "https://github.com/";

/// What the credential store holds for one host.
#[derive(Debug, PartialEq, Eq)]
pub struct HostEntry {
    /// The login of the authenticated user.
    pub user: Option<String>,
    /// The access token.
    pub token: Option<String>,
}

/// A host entry, over character sequences.
pub struct HostEntryView {
    pub user: Option<Seq<char>>,
    pub token: Option<Seq<char>>,
}

impl View for HostEntry {
    type V = HostEntryView;

    open spec fn view(&self) -> HostEntryView {
        HostEntryView { user: self.user.deep_view(), token: self.token.deep_view() }
    }
}

impl DeepView for HostEntry {
    type V = HostEntryView;

    open spec fn deep_view(&self) -> HostEntryView {
        self@
    }
}

/// The owner to look the repository up under, and the token to do it with.
#[derive(Debug, PartialEq, Eq)]
pub struct Credential {
    pub owner: String,
    pub token: String,
}

/// A credential, over character sequences.
pub struct CredentialView {
    pub owner: Seq<char>,
    pub token: Seq<char>,
}

impl View for Credential {
    type V = CredentialView;

    open spec fn view(&self) -> CredentialView {
        CredentialView { owner: self.owner@, token: self.token@ }
    }
}

/// What is kept of a repository's metadata.
#[derive(Debug, PartialEq, Eq)]
pub struct RepositoryMetadata {
    /// The repository's web address.
    pub canonical_url: String,
    /// The address of the repository that this one was forked from.
    pub fork_parent: Option<String>,
}

/// Repository metadata, over character sequences.
pub struct RepositoryMetadataView {
    pub canonical_url: Seq<char>,
    pub fork_parent: Option<Seq<char>>,
}

impl View for RepositoryMetadata {
    type V = RepositoryMetadataView;

    open spec fn view(&self) -> RepositoryMetadataView {
        RepositoryMetadataView {
            canonical_url: self.canonical_url@,
            fork_parent: self.fork_parent.deep_view(),
        }
    }
}

/// The owner is the one that the specifier names, else the host's user;
/// without either the configuration is at fault. The token is the host's;
/// without it nothing can be authenticated.
pub open spec fn credential_for(
    owner: Option<Seq<char>>,
    host: Option<HostEntryView>,
) -> Result<CredentialView, CloneError> {
    let user = match host {
        Some(entry) => entry.user,
        None => None,
    };
    let token = match host {
        Some(entry) => entry.token,
        None => None,
    };
    match (owner, user, token) {
        (None, None, _) => Err(CloneError::Configuration),
        (Some(owner), _, Some(token)) => Ok(CredentialView { owner, token }),
        (None, Some(user), Some(token)) => Ok(CredentialView { owner: user, token }),
        (_, _, None) => Err(CloneError::Authentication),
    }
}

/// The web address of `owner`'s repository `name`.
pub open spec fn canonical(owner: Seq<char>, name: Seq<char>) -> Seq<char> {
    GITHUB_URL@ + qualified(owner, name)
}

/// Resolves the owner and the token from what the credential store holds
/// for the host.
pub fn credential(owner: Option<String>, host: Option<HostEntry>) -> (r: Result<
    Credential,
    CloneError,
>)
    ensures
        match credential_for(owner.deep_view(), host.deep_view()) {
            Ok(c) => r is Ok && r->Ok_0@ == c,
            Err(e) => r == Err::<Credential, CloneError>(e),
        },
{
    let (user, token) = match host {
        Some(entry) => (entry.user, entry.token),
        None => (None, None),
    };
    let owner = match owner {
        Some(owner) => owner,
        None => match user {
            Some(user) => user,
            None => {
                return Err(CloneError::Configuration);
            },
        },
    };
    match token {
        Some(token) => Ok(Credential { owner, token }),
        None => Err(CloneError::Authentication),
    }
}

/// Builds the web address of `owner`'s repository `name`.
pub fn canonical_url(owner: &str, name: &str) -> (url: String)
    ensures
        url@ == canonical(owner@, name@),
{
    let mut url = GITHUB_URL.to_owned();
    url.append(owner);
    url.append("/");
    url.append(name);
    proof {
        reveal_strlit("/");
    }
    url
}

impl RepositoryMetadata {
    /// The metadata of `owner`'s repository `name`. The address is made
    /// from the owner and the name alone, whatever the lookup answered.
    pub fn new(owner: &str, name: &str, fork_parent: Option<String>) -> (metadata: Self)
        ensures
            metadata@ == (RepositoryMetadataView {
                canonical_url: canonical(owner@, name@),
                fork_parent: fork_parent.deep_view(),
            }),
    {
        RepositoryMetadata { canonical_url: canonical_url(owner, name), fork_parent }
    }
}

} // verus!
