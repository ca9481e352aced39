//! The ways in which resolving a project can fail.
use vstd::prelude::*;
use vstd::string::*;

verus! {

/// Why a project could not be resolved.
#[derive(Debug, Clone, PartialEq, Eq)]
pub enum Error {
    /// No root directory could be established; holds the directory that the
    /// search started from.
    ProjectRootNotFound(String),
    /// The repository search itself failed (for example on corrupt metadata);
    /// holds its message.
    RepositoryDiscoveryFailed(String),
    /// Reading the identifier file failed for a reason other than its absence;
    /// holds the message.
    IoFailure(String),
}

/// What an `Error` holds, as plain sequences.
pub enum ErrorModel {
    ProjectRootNotFound(Seq<char>),
    RepositoryDiscoveryFailed(Seq<char>),
    IoFailure(Seq<char>),
}

impl View for Error {
    type V = ErrorModel;

    open spec fn view(&self) -> ErrorModel {
        match self {
            Error::ProjectRootNotFound(s) => ErrorModel::ProjectRootNotFound(s@),
            Error::RepositoryDiscoveryFailed(s) => ErrorModel::RepositoryDiscoveryFailed(s@),
            Error::IoFailure(s) => ErrorModel::IoFailure(s@),
        }
    }
}

/// The message for an error: a fixed text for its kind, then what it holds.
pub open spec fn message_of(e: ErrorModel) -> Seq<char> {
    match e {
        ErrorModel::ProjectRootNotFound(s) => ROOT_NOT_FOUND@ + s,
        ErrorModel::RepositoryDiscoveryFailed(s) => DISCOVERY_FAILED@ + s,
        ErrorModel::IoFailure(s) => IO_FAILURE@ + s,
    }
}

pub const ROOT_NOT_FOUND: &'static str = "failed to find project root directory in search from ";

pub const DISCOVERY_FAILED: &'static str = "repository discovery failed: ";

pub const IO_FAILURE: &'static str = "failed to read the project id file: ";

impl Error {
    /// A message for people, one line.
    pub fn message(&self) -> (r: String)
        ensures
            r@ == message_of(self@),
    {
        let (head, detail) = match self {
            Error::ProjectRootNotFound(s) => (ROOT_NOT_FOUND, s),
            Error::RepositoryDiscoveryFailed(s) => (DISCOVERY_FAILED, s),
            Error::IoFailure(s) => (IO_FAILURE, s),
        };
        let mut r = String::from_str(head);
        r.append(detail.as_str());
        r
    }
}

} // verus!
