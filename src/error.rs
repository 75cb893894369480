//! The failures of the library's operations, and how git2's error codes map
//! onto them.
use vstd::prelude::*;

verus! {

/// What went wrong in an operation.
#[derive(Debug, Clone, Copy, PartialEq, Eq, Structural)]
pub enum YadmError {
    DestinationExists,
    RepositoryNotFound,
    Transport,
    AuthFailure,
    RemoteNotFound,
    DetachedHead,
    NonFastForward,
    Rejected,
    MergeFailure,
    FileNotFound,
    TreeWriteFailure,
    EmptyIdentity,
    PermissionDenied,
    Other,
}

/// The step of an operation at which the version-control engine failed.
#[derive(Debug, Clone, Copy, PartialEq, Eq, Structural)]
pub enum Stage {
    /// Opening the managed repository.
    Open,
    /// Cloning a remote into the repository's location.
    Clone,
    /// Looking up the remote `origin`.
    FindRemote,
    /// Sending a branch to the remote.
    Push,
    /// Fetching a branch from the remote.
    Fetch,
    /// Merging fetched history.
    Merge,
    /// Writing the index out as a tree.
    WriteTree,
    /// Any other local step (index, references, checkout, commit).
    Local,
}

#[verifier::external_type_specification]
pub struct ExErrorCode(git2::ErrorCode);

#[verifier::external_type_specification]
#[verifier::external_body]
pub struct ExGitError(git2::Error);

/// The engine's error code carried by an error.
pub uninterp spec fn code_of(e: git2::Error) -> git2::ErrorCode;

/// Relies on git2::Error::code: the error code read from the error's raw code
/// alone.
pub assume_specification[ git2::Error::code ](e: &git2::Error) -> (r: git2::ErrorCode)
    ensures
        r == code_of(*e),
;

/// The library's error for an engine failure with `code` at `stage`.
pub open spec fn error_for(stage: Stage, code: git2::ErrorCode) -> YadmError {
    match stage {
        Stage::Open => if code == git2::ErrorCode::NotFound {
            YadmError::RepositoryNotFound
        } else {
            YadmError::Other
        },
        Stage::Clone => YadmError::Transport,
        Stage::FindRemote => if code == git2::ErrorCode::NotFound || code
            == git2::ErrorCode::InvalidSpec {
            YadmError::RemoteNotFound
        } else {
            YadmError::Other
        },
        Stage::Push => if code == git2::ErrorCode::Auth {
            YadmError::AuthFailure
        } else if code == git2::ErrorCode::NotFastForward {
            YadmError::NonFastForward
        } else {
            YadmError::Rejected
        },
        Stage::Fetch => if code == git2::ErrorCode::Auth {
            YadmError::AuthFailure
        } else {
            YadmError::Transport
        },
        Stage::Merge => YadmError::MergeFailure,
        Stage::WriteTree => YadmError::TreeWriteFailure,
        Stage::Local => YadmError::Other,
    }
}

/// The library's error for an engine failure with `code` at `stage`.
pub fn classify(stage: Stage, code: git2::ErrorCode) -> (r: YadmError)
    ensures
        r == error_for(stage, code),
{
    match stage {
        Stage::Open => match code {
            git2::ErrorCode::NotFound => YadmError::RepositoryNotFound,
            _ => YadmError::Other,
        },
        Stage::Clone => YadmError::Transport,
        Stage::FindRemote => match code {
            git2::ErrorCode::NotFound => YadmError::RemoteNotFound,
            git2::ErrorCode::InvalidSpec => YadmError::RemoteNotFound,
            _ => YadmError::Other,
        },
        Stage::Push => match code {
            git2::ErrorCode::Auth => YadmError::AuthFailure,
            git2::ErrorCode::NotFastForward => YadmError::NonFastForward,
            _ => YadmError::Rejected,
        },
        Stage::Fetch => match code {
            git2::ErrorCode::Auth => YadmError::AuthFailure,
            _ => YadmError::Transport,
        },
        Stage::Merge => YadmError::MergeFailure,
        Stage::WriteTree => YadmError::TreeWriteFailure,
        Stage::Local => YadmError::Other,
    }
}

/// The library's error for an engine error raised at `stage`.
pub fn from_git_error(stage: Stage, e: &git2::Error) -> (r: YadmError)
    ensures
        r == error_for(stage, code_of(*e)),
{
    let code = e.code();
    classify(stage, code)
}

} // verus!
