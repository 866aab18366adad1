use jj_gh::error::CloneError;
use jj_gh::metadata::{
    canonical_url, credential, Credential, HostEntry, RepositoryMetadata, GITHUB_COM, GITHUB_URL,
};
use jj_gh::wiring::{add_upstream, upstream_directory};
use jj_gh::supervisor::Invocation;

fn entry(user: Option<&str>, token: Option<&str>) -> HostEntry {
    HostEntry { user: user.map(str::to_string), token: token.map(str::to_string) }
}

fn owned(s: &str) -> Option<String> {
    Some(s.to_string())
}

#[test]
fn address_is_made_of_owner_and_name() {
    assert_eq!(canonical_url("alice", "proj"), "https://github.com/alice/proj");
    assert_eq!(canonical_url("bob", "fork-of-proj"), "https://github.com/bob/fork-of-proj");
    assert_eq!(GITHUB_URL, "https://github.com/");
    assert_eq!(GITHUB_COM, "github.com");
}

#[test]
fn address_does_not_depend_on_the_parent() {
    let plain = RepositoryMetadata::new("alice", "proj", None);
    let fork = RepositoryMetadata::new("alice", "proj", owned("https://github.com/carol/proj"));
    assert_eq!(plain.canonical_url, "https://github.com/alice/proj");
    assert_eq!(fork.canonical_url, plain.canonical_url);
    assert_eq!(plain.fork_parent, None);
    assert_eq!(fork.fork_parent, owned("https://github.com/carol/proj"));
}

#[test]
fn owner_defaults_to_the_host_user() {
    assert_eq!(
        credential(None, Some(entry(Some("alice"), Some("t0ken")))),
        Ok(Credential { owner: "alice".to_string(), token: "t0ken".to_string() })
    );
}

#[test]
fn named_owner_is_kept() {
    assert_eq!(
        credential(owned("bob"), Some(entry(Some("alice"), Some("t0ken")))),
        Ok(Credential { owner: "bob".to_string(), token: "t0ken".to_string() })
    );
    assert_eq!(
        credential(owned("bob"), Some(entry(None, Some("t0ken")))),
        Ok(Credential { owner: "bob".to_string(), token: "t0ken".to_string() })
    );
}

#[test]
fn missing_user_is_a_configuration_error() {
    assert_eq!(credential(None, None), Err(CloneError::Configuration));
    assert_eq!(credential(None, Some(entry(None, None))), Err(CloneError::Configuration));
    assert_eq!(
        credential(None, Some(entry(None, Some("t0ken")))),
        Err(CloneError::Configuration)
    );
}

#[test]
fn missing_token_is_an_authentication_error() {
    assert_eq!(credential(owned("bob"), None), Err(CloneError::Authentication));
    assert_eq!(
        credential(owned("bob"), Some(entry(Some("alice"), None))),
        Err(CloneError::Authentication)
    );
    assert_eq!(
        credential(None, Some(entry(Some("alice"), None))),
        Err(CloneError::Authentication)
    );
}

#[test]
fn named_directory_comes_before_the_reported_one() {
    assert_eq!(upstream_directory(owned("named"), owned("reported")), Ok("named".to_string()));
    assert_eq!(upstream_directory(owned("named"), None), Ok("named".to_string()));
    assert_eq!(upstream_directory(None, owned("reported")), Ok("reported".to_string()));
}

#[test]
fn no_directory_at_all_is_an_error() {
    assert_eq!(upstream_directory(None, None), Err(CloneError::MissingDirectory));
}

#[test]
fn remote_is_added_inside_the_directory() {
    assert_eq!(
        add_upstream("fork-of-proj", "upstream", "https://github.com/carol/proj"),
        Invocation {
            program: "jj".to_string(),
            args: vec![
                "-R".to_string(),
                "fork-of-proj".to_string(),
                "git".to_string(),
                "remote".to_string(),
                "add".to_string(),
                "upstream".to_string(),
                "https://github.com/carol/proj".to_string(),
            ],
        }
    );
}

#[test]
fn every_error_has_its_own_message() {
    let all = [
        CloneError::Configuration,
        CloneError::Authentication,
        CloneError::RemoteLookup,
        CloneError::CloneProcess,
        CloneError::MissingDirectory,
        CloneError::RemoteWiring,
    ];
    assert_eq!(CloneError::Configuration.describe(), "no github.com host or user found");
    assert_eq!(CloneError::Authentication.describe(), "no github.com token found");
    assert_eq!(CloneError::RemoteLookup.describe(), "failed to get repository information");
    assert_eq!(CloneError::CloneProcess.describe(), "jj git clone failed");
    assert_eq!(
        CloneError::MissingDirectory.describe(),
        "could not find the directory of the clone"
    );
    assert_eq!(CloneError::RemoteWiring.describe(), "failed to add the upstream remote");
    for (i, a) in all.iter().enumerate() {
        for (j, b) in all.iter().enumerate() {
            assert_eq!(a.describe() == b.describe(), i == j);
        }
    }
}
