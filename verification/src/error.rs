//! Error taxonomy of the library.
//!
//! Failures of external collaborators (repository backend, hosting provider,
//! filesystem, serialization) are carried as plain messages; the structured
//! variants record the decisions this library makes about them.

use vstd::prelude::*;
use vstd::string::StringExecFns;

verus! {

/// Errors of configuration handling.
#[derive(Debug, Clone)]
pub enum ConfigError {
    HomeDirectoryNotFound,
    IoError { message: String },
    JsonError { message: String },
    OrganizationNotAuthorized,
}

/// Errors of the project index.
#[derive(Debug, Clone)]
pub enum IndexError {
    NoDefaultOrganization,
    GitHubTokenNotFound,
    GitHubError { message: String },
    ProjectAlreadyExists(String),
    IoError { message: String },
    JsonError { message: String },
}

/// Errors of repository orchestration.
#[derive(Debug, Clone)]
pub enum RepositoryError {
    GitNotFound,
    InvalidRemoteUrl,
    ProjectAlreadyExists(String),
    GitError { message: String },
    IoError { message: String },
    AtomicOperationFailed,
    ConfigError(ConfigError),
    IndexError(IndexError),
}

/// Errors of a single operation or of an atomic transaction.
#[derive(Debug)]
pub enum OperationError {
    ExecutionFailed { message: String },
    RollbackFailed { message: String },
    /// An atomic run stopped: it names the failed operation, its cause, and
    /// how many completed operations were reverted.
    AtomicOperationFailed {
        failed_operation: String,
        original_error: Box<OperationError>,
        completed_count: usize,
    },
    GitError { message: String },
    IoError { message: String },
}

/// The plain-text rendering of an operation error.
pub open spec fn operation_error_text(e: OperationError) -> Seq<char> {
    match e {
        OperationError::ExecutionFailed { message } => message@,
        OperationError::RollbackFailed { message } => message@,
        OperationError::AtomicOperationFailed { failed_operation, .. } => "Atomic operation failed at "@
            + failed_operation@,
        OperationError::GitError { message } => message@,
        OperationError::IoError { message } => message@,
    }
}

impl OperationError {
    /// A plain-text message naming the failure.
    pub fn message(&self) -> (r: String)
        ensures
            r@ == operation_error_text(*self),
    {
        match self {
            OperationError::ExecutionFailed { message } => message.clone(),
            OperationError::RollbackFailed { message } => message.clone(),
            OperationError::AtomicOperationFailed { failed_operation, .. } => {
                let mut s = String::from_str("Atomic operation failed at ");
                s.append(failed_operation.as_str());
                s
            }
            OperationError::GitError { message } => message.clone(),
            OperationError::IoError { message } => message.clone(),
        }
    }
}

/// Top-level error union surfaced to the command shell.
#[derive(Debug)]
pub enum DotError {
    Config(ConfigError),
    Index(IndexError),
    Repository(RepositoryError),
    Operation(OperationError),
}

} // verus!
