use vstd::prelude::*;

verus! {

#[verifier::external_type_specification]
#[verifier::external_body]
pub struct ExRepository(git2::Repository);

#[verifier::external_type_specification]
#[verifier::external_body]
pub struct ExGitError(git2::Error);

/// Read access to the identity configured for a repository.
pub trait RepositoryExt {
    // git config user.name
    fn get_username(&self) -> String;

    // git config user.email
    fn get_email(&self) -> String;
}

/// Relies on git2::Repository::config and git2::Config::get_string: the
/// string configured under `key`, or the empty string when the key is
/// absent or unreadable.
#[verifier::external_body]
fn config_string(repo: &git2::Repository, key: &str) -> String {
    repo.config().and_then(|config| config.get_string(key)).unwrap_or_default()
}

impl RepositoryExt for git2::Repository {
    fn get_username(&self) -> String {
        config_string(self, "user.name")
    }

    fn get_email(&self) -> String {
        config_string(self, "user.email")
    }
}

/// Relies on git2::Repository::init: creates or reopens the repository at
/// `path`, creating missing directories as needed; initializing an already
/// initialized repository succeeds and keeps its history.
#[verifier::external_body]
pub fn init_repository(path: &str) -> Result<git2::Repository, git2::Error> {
    git2::Repository::init(path)
}

/// Relies on git2::Error::message: the message text of the error.
#[verifier::external_body]
pub fn error_message(e: &git2::Error) -> String {
    e.message().to_string()
}

} // verus!
