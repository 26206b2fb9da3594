//! The state of a tool server: the path of a repository, and the repository
//! once loaded.

use vstd::prelude::*;

use crate::repo::Repo;

verus! {

/// The repository a tool server works on, loaded on first use.
#[derive(Debug)]
pub struct ServerState {
    repo: Option<Repo>,
    repo_path: String,
}

/// Why the repository could not be loaded.
#[derive(Debug)]
pub enum StateError {
    LoadFailed { path: String, message: String },
}

/// The message of a state error.
pub open spec fn state_error_text(e: StateError) -> Seq<char> {
    match e {
        StateError::LoadFailed { path, message } => "failed to load repo at "@ + path@ + ": "@ + message@,
    }
}

impl StateError {
    /// The message of the error.
    pub fn message(&self) -> (s: String)
        ensures
            s@ == state_error_text(*self),
    {
        match self {
            StateError::LoadFailed { path, message } => {
                let mut s = String::new();
                s.append("failed to load repo at ");
                s.append(path.as_str());
                s.append(": ");
                s.append(message.as_str());
                s
            },
        }
    }
}

impl ServerState {
    /// The loaded repository, if any.
    pub closed spec fn spec_repo(&self) -> Option<Repo> {
        self.repo
    }

    /// The path of the repository.
    pub closed spec fn spec_path(&self) -> Seq<char> {
        self.repo_path@
    }

    /// A state for the repository at `repo_path`, not loaded yet.
    pub fn new(repo_path: String) -> (s: ServerState)
        ensures
            s.spec_repo() is None,
            s.spec_path() == repo_path@,
    {
        ServerState { repo: None, repo_path }
    }

    /// The loaded repository, or `None` before the first load.
    pub fn repo(&self) -> (r: Option<&Repo>)
        ensures
            match r {
                Some(x) => self.spec_repo() == Some(*x),
                None => self.spec_repo() is None,
            },
    {
        match &self.repo {
            Some(x) => Some(x),
            None => None,
        }
    }

    /// Whether the repository still has to be loaded.
    pub fn needs_load(&self) -> (b: bool)
        ensures
            b == self.spec_repo() is None,
    {
        self.repo.is_none()
    }

    /// Takes the outcome of loading the repository from disk: a loaded
    /// repository replaces the current one; a failure leaves the state as it
    /// was and is handed back.
    pub fn reload(&mut self, loaded: Result<Repo, StateError>) -> (r: Result<(), StateError>)
        ensures
            final(self).spec_path() == old(self).spec_path(),
            match loaded {
                Ok(x) => r is Ok && final(self).spec_repo() == Some(x),
                Err(e) => r == Err::<(), StateError>(e) && final(self).spec_repo() == old(self).spec_repo(),
            },
    {
        match loaded {
            Ok(x) => {
                self.repo = Some(x);
                Ok(())
            },
            Err(e) => Err(e),
        }
    }

    /// The path of the repository.
    pub fn repo_path(&self) -> (p: &str)
        ensures
            p@ == self.spec_path(),
    {
        self.repo_path.as_str()
    }
}

} // verus!
