//! The error kinds of the tool.
use vstd::prelude::*;

verus! {

/// One git step run by a synchronization or a setup.
#[derive(Debug, Clone, Copy, PartialEq, Eq, Structural)]
pub enum GitStep {
    /// `status --porcelain`
    Status,
    /// `add .`
    StageAll,
    /// `commit -m <message>`
    Commit,
    /// `pull origin main --rebase`
    PullRebase,
    /// `push origin main`
    Push,
}

/// What can go wrong.
#[derive(Debug, Clone, PartialEq, Eq)]
pub enum Error {
    /// A required directory cannot be determined or accessed.
    Config,
    /// A git step exited with failure; the diagnostic it printed.
    Vcs { step: GitStep, message: String },
    /// The working tree has no remote named `origin`.
    NotBound,
    /// An HTTP request failed or answered with a failure status.
    Network,
    /// A response did not have the expected shape.
    Parse,
    /// The entry has no identifier to fetch a document for.
    MissingIdentifier,
    /// No entry matches a lookup query.
    NotFound,
}

impl Error {
    /// An equal error.
    pub fn duplicate(&self) -> (r: Error)
        ensures
            r == *self,
    {
        match self {
            Error::Config => Error::Config,
            Error::Vcs { step, message } => Error::Vcs { step: *step, message: message.clone() },
            Error::NotBound => Error::NotBound,
            Error::Network => Error::Network,
            Error::Parse => Error::Parse,
            Error::MissingIdentifier => Error::MissingIdentifier,
            Error::NotFound => Error::NotFound,
        }
    }
}

} // verus!
