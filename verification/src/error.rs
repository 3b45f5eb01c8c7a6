//! The failures that reach the caller of a transfer, with the text of each.

use vstd::prelude::*;
use vstd::string::*;

use crate::config::{AuthError, ConfigError};
use crate::executor::TaskError;
use crate::mkdir::MkdirError;
use crate::plan::PlanError;
use crate::pool::PoolError;

verus! {

/// How far a failure reaches.
#[derive(Clone, Copy, Debug, PartialEq, Eq, Structural)]
pub enum ErrorCategory {
    /// The request itself is at fault; nothing is started.
    Configuration,
    /// No plan could be made for the source.
    Planning,
    /// One task failed; the tasks beside it go on.
    Task,
    /// The workers could not be brought back together.
    Coordination,
}

/// A failure of a transfer.
#[derive(Debug)]
pub enum TransferError {
    AuthenticationFailed,
    DirectoryNotAllowed,
    ThreadJoinError,
    FileNotFound { path: String },
    PermissionDenied { path: String },
    NetworkError { message: String },
    /// A failure of local input or output, with its text.
    IoError(String),
    /// A failure of the remote session, with its text.
    SshError(String),
    /// The path has no final name.
    NameExtractionFailed { path: String },
    /// The directory is protected and is never created.
    SystemDirectory { path: String },
    /// The path exists and is no directory.
    NotADirectory { path: String },
    /// The directory could not be created, with the reason given for it.
    CreateDirectoryFailed { path: String, cause: String },
    /// The source of the transfer does not exist, with the reason given for it.
    SourceNotFound { path: String, cause: String },
    /// The settings or the course of the work are not valid.
    Invalid { message: String },
}

/// A failure as plain values.
pub enum ErrorModel {
    AuthenticationFailed,
    DirectoryNotAllowed,
    ThreadJoinError,
    FileNotFound { path: Seq<char> },
    PermissionDenied { path: Seq<char> },
    NetworkError { message: Seq<char> },
    IoError(Seq<char>),
    SshError(Seq<char>),
    NameExtractionFailed { path: Seq<char> },
    SystemDirectory { path: Seq<char> },
    NotADirectory { path: Seq<char> },
    CreateDirectoryFailed { path: Seq<char>, cause: Seq<char> },
    SourceNotFound { path: Seq<char>, cause: Seq<char> },
    Invalid { message: Seq<char> },
}

impl View for TransferError {
    type V = ErrorModel;

    open spec fn view(&self) -> ErrorModel {
        match self {
            TransferError::AuthenticationFailed => ErrorModel::AuthenticationFailed,
            TransferError::DirectoryNotAllowed => ErrorModel::DirectoryNotAllowed,
            TransferError::ThreadJoinError => ErrorModel::ThreadJoinError,
            TransferError::FileNotFound { path } => ErrorModel::FileNotFound { path: path@ },
            TransferError::PermissionDenied { path } => ErrorModel::PermissionDenied {
                path: path@,
            },
            TransferError::NetworkError { message } => ErrorModel::NetworkError {
                message: message@,
            },
            TransferError::IoError(text) => ErrorModel::IoError(text@),
            TransferError::SshError(text) => ErrorModel::SshError(text@),
            TransferError::NameExtractionFailed { path } => ErrorModel::NameExtractionFailed {
                path: path@,
            },
            TransferError::SystemDirectory { path } => ErrorModel::SystemDirectory { path: path@ },
            TransferError::NotADirectory { path } => ErrorModel::NotADirectory { path: path@ },
            TransferError::CreateDirectoryFailed { path, cause } => ErrorModel::CreateDirectoryFailed {
                path: path@,
                cause: cause@,
            },
            TransferError::SourceNotFound { path, cause } => ErrorModel::SourceNotFound {
                path: path@,
                cause: cause@,
            },
            TransferError::Invalid { message } => ErrorModel::Invalid { message: message@ },
        }
    }
}

impl ErrorModel {
    /// The text that describes the failure.
    pub open spec fn message(self) -> Seq<char> {
        match self {
            ErrorModel::AuthenticationFailed => "Authentication failed"@,
            ErrorModel::DirectoryNotAllowed => "Directory operations not allowed without recursive flag"@,
            ErrorModel::ThreadJoinError => "Thread join error"@,
            ErrorModel::FileNotFound { path } => "File not found: "@ + path,
            ErrorModel::PermissionDenied { path } => "Permission denied: "@ + path,
            ErrorModel::NetworkError { message } => "Network error: "@ + message,
            ErrorModel::IoError(text) => "IO error: "@ + text,
            ErrorModel::SshError(text) => "SSH error: "@ + text,
            ErrorModel::NameExtractionFailed { path } => "Cannot determine file name: "@ + path,
            ErrorModel::SystemDirectory { path } => "Cannot create system directory: "@ + path,
            ErrorModel::NotADirectory { path } => "Path exists but is not a directory: "@ + path,
            ErrorModel::CreateDirectoryFailed { path, cause } => "Failed to create directory "@
                + path + ": "@ + cause,
            ErrorModel::SourceNotFound { path, cause } => "Source does not exist: "@ + path
                + ": "@ + cause,
            ErrorModel::Invalid { message } => "Invalid request: "@ + message,
        }
    }

    /// How far the failure reaches.
    pub open spec fn category(self) -> ErrorCategory {
        match self {
            ErrorModel::DirectoryNotAllowed => ErrorCategory::Configuration,
            ErrorModel::SystemDirectory { path } => ErrorCategory::Configuration,
            ErrorModel::Invalid { message } => ErrorCategory::Configuration,
            ErrorModel::AuthenticationFailed => ErrorCategory::Configuration,
            ErrorModel::FileNotFound { path } => ErrorCategory::Planning,
            ErrorModel::NameExtractionFailed { path } => ErrorCategory::Planning,
            ErrorModel::NotADirectory { path } => ErrorCategory::Planning,
            ErrorModel::CreateDirectoryFailed { path, cause } => ErrorCategory::Planning,
            ErrorModel::SourceNotFound { path, cause } => ErrorCategory::Planning,
            ErrorModel::ThreadJoinError => ErrorCategory::Coordination,
            ErrorModel::PermissionDenied { path } => ErrorCategory::Task,
            ErrorModel::NetworkError { message } => ErrorCategory::Task,
            ErrorModel::IoError(text) => ErrorCategory::Task,
            ErrorModel::SshError(text) => ErrorCategory::Task,
        }
    }
}

/// The failure that a planning error at `path` amounts to. `cause` is the
/// reason that the stat of the source gave, and is kept for a missing source.
pub open spec fn plan_failure(error: PlanError, path: Seq<char>, cause: Seq<char>) -> ErrorModel {
    match error {
        PlanError::SourceNotFound => ErrorModel::SourceNotFound { path, cause },
        PlanError::DirectoryNotAllowed => ErrorModel::DirectoryNotAllowed,
        PlanError::NameExtractionFailed => ErrorModel::NameExtractionFailed { path },
        PlanError::TotalTooLarge => ErrorModel::Invalid {
            message: "the bytes to move do not fit in 64 bits"@,
        },
    }
}

/// The failure that a directory error at `path` amounts to. `cause` is the
/// reason that the failed creation gave.
pub open spec fn mkdir_failure(error: MkdirError, path: Seq<char>, cause: Seq<char>) -> ErrorModel {
    match error {
        MkdirError::SystemDirectory => ErrorModel::SystemDirectory { path },
        MkdirError::NotADirectory => ErrorModel::NotADirectory { path },
        MkdirError::CreateFailed => ErrorModel::CreateDirectoryFailed { path, cause },
        MkdirError::OutOfTurn => ErrorModel::Invalid { message: "answer out of turn"@ },
    }
}

/// The failure that a task error amounts to. `cause` is the reason that the
/// failed read or write gave.
pub open spec fn task_failure(error: TaskError, cause: Seq<char>) -> ErrorModel {
    match error {
        TaskError::ReadFailed => ErrorModel::IoError("read failed: "@ + cause),
        TaskError::WriteFailed => ErrorModel::IoError("write failed: "@ + cause),
        TaskError::TooManyBytes => ErrorModel::IoError("more bytes than 64 bits can count"@),
        TaskError::OutOfTurn => ErrorModel::Invalid { message: "event out of turn"@ },
    }
}

/// The failure that a pool error amounts to.
pub open spec fn pool_failure(error: PoolError) -> ErrorModel {
    match error {
        PoolError::NoWorkers => ErrorModel::Invalid { message: "at least one worker is needed"@ },
        PoolError::WorkerLost => ErrorModel::ThreadJoinError,
    }
}

/// The failure that refused settings amount to.
pub open spec fn config_failure(error: ConfigError) -> ErrorModel {
    match error {
        ConfigError::NoWorkers => ErrorModel::Invalid { message: "at least one worker is needed"@ },
        ConfigError::EmptyChunk => ErrorModel::Invalid {
            message: "the chunk size must not be zero"@,
        },
    }
}

/// The failure that a failed search for an authentication method amounts to.
pub open spec fn auth_failure(error: AuthError) -> ErrorModel {
    match error {
        AuthError::NoHomeDirectory => ErrorModel::Invalid {
            message: "Cannot determine home directory"@,
        },
        AuthError::OutOfTurn => ErrorModel::Invalid { message: "answer out of turn"@ },
    }
}

fn prefixed(prefix: &str, rest: &str) -> (r: String)
    ensures
        r@ == prefix@ + rest@,
{
    let mut out = prefix.to_owned();
    out.append(rest);
    out
}

fn with_cause(prefix: &str, path: &str, cause: &str) -> (r: String)
    ensures
        r@ == prefix@ + path@ + ": "@ + cause@,
{
    let mut out = prefix.to_owned();
    out.append(path);
    out.append(": ");
    out.append(cause);
    out
}

impl TransferError {
    /// The text that describes the failure.
    pub fn message(&self) -> (r: String)
        ensures
            r@ == self@.message(),
    {
        match self {
            TransferError::AuthenticationFailed => "Authentication failed".to_owned(),
            TransferError::DirectoryNotAllowed => "Directory operations not allowed without recursive flag".to_owned(),
            TransferError::ThreadJoinError => "Thread join error".to_owned(),
            TransferError::FileNotFound { path } => prefixed("File not found: ", path.as_str()),
            TransferError::PermissionDenied { path } => prefixed(
                "Permission denied: ",
                path.as_str(),
            ),
            TransferError::NetworkError { message } => prefixed(
                "Network error: ",
                message.as_str(),
            ),
            TransferError::IoError(text) => prefixed("IO error: ", text.as_str()),
            TransferError::SshError(text) => prefixed("SSH error: ", text.as_str()),
            TransferError::NameExtractionFailed { path } => prefixed(
                "Cannot determine file name: ",
                path.as_str(),
            ),
            TransferError::SystemDirectory { path } => prefixed(
                "Cannot create system directory: ",
                path.as_str(),
            ),
            TransferError::NotADirectory { path } => prefixed(
                "Path exists but is not a directory: ",
                path.as_str(),
            ),
            TransferError::CreateDirectoryFailed { path, cause } => with_cause(
                "Failed to create directory ",
                path.as_str(),
                cause.as_str(),
            ),
            TransferError::SourceNotFound { path, cause } => with_cause(
                "Source does not exist: ",
                path.as_str(),
                cause.as_str(),
            ),
            TransferError::Invalid { message } => prefixed("Invalid request: ", message.as_str()),
        }
    }

    /// How far the failure reaches.
    pub fn category(&self) -> (c: ErrorCategory)
        ensures
            c == self@.category(),
    {
        match self {
            TransferError::DirectoryNotAllowed => ErrorCategory::Configuration,
            TransferError::SystemDirectory { path } => ErrorCategory::Configuration,
            TransferError::Invalid { message } => ErrorCategory::Configuration,
            TransferError::AuthenticationFailed => ErrorCategory::Configuration,
            TransferError::FileNotFound { path } => ErrorCategory::Planning,
            TransferError::NameExtractionFailed { path } => ErrorCategory::Planning,
            TransferError::NotADirectory { path } => ErrorCategory::Planning,
            TransferError::CreateDirectoryFailed { path, cause } => ErrorCategory::Planning,
            TransferError::SourceNotFound { path, cause } => ErrorCategory::Planning,
            TransferError::ThreadJoinError => ErrorCategory::Coordination,
            TransferError::PermissionDenied { path } => ErrorCategory::Task,
            TransferError::NetworkError { message } => ErrorCategory::Task,
            TransferError::IoError(text) => ErrorCategory::Task,
            TransferError::SshError(text) => ErrorCategory::Task,
        }
    }

    /// Whether the failure ends the whole operation. Only the failure of a
    /// single task does not.
    pub fn is_fatal(&self) -> (r: bool)
        ensures
            r == (self@.category() != ErrorCategory::Task),
    {
        match self.category() {
            ErrorCategory::Task => false,
            _ => true,
        }
    }

    /// The failure for a planning error that concerns `path`. A missing
    /// source keeps both the path and `cause`, the reason that the stat of
    /// the source gave.
    pub fn from_plan(error: PlanError, path: &str, cause: &str) -> (e: TransferError)
        ensures
            e@ == plan_failure(error, path@, cause@),
            error == PlanError::SourceNotFound ==> e@ == (ErrorModel::SourceNotFound {
                path: path@,
                cause: cause@,
            }),
    {
        match error {
            PlanError::SourceNotFound => TransferError::SourceNotFound {
                path: path.to_owned(),
                cause: cause.to_owned(),
            },
            PlanError::DirectoryNotAllowed => TransferError::DirectoryNotAllowed,
            PlanError::NameExtractionFailed => TransferError::NameExtractionFailed {
                path: path.to_owned(),
            },
            PlanError::TotalTooLarge => TransferError::Invalid {
                message: "the bytes to move do not fit in 64 bits".to_owned(),
            },
        }
    }

    /// The failure for a directory error that concerns `path`. A failed
    /// creation keeps `cause`, the reason that it gave.
    pub fn from_mkdir(error: MkdirError, path: &str, cause: &str) -> (e: TransferError)
        ensures
            e@ == mkdir_failure(error, path@, cause@),
    {
        match error {
            MkdirError::SystemDirectory => TransferError::SystemDirectory {
                path: path.to_owned(),
            },
            MkdirError::NotADirectory => TransferError::NotADirectory { path: path.to_owned() },
            MkdirError::CreateFailed => TransferError::CreateDirectoryFailed {
                path: path.to_owned(),
                cause: cause.to_owned(),
            },
            MkdirError::OutOfTurn => TransferError::Invalid {
                message: "answer out of turn".to_owned(),
            },
        }
    }

    /// The failure for a task error. A failed read or write keeps `cause`,
    /// the reason that it gave.
    pub fn from_task(error: TaskError, cause: &str) -> (e: TransferError)
        ensures
            e@ == task_failure(error, cause@),
    {
        match error {
            TaskError::ReadFailed => TransferError::IoError(prefixed("read failed: ", cause)),
            TaskError::WriteFailed => TransferError::IoError(prefixed("write failed: ", cause)),
            TaskError::TooManyBytes => TransferError::IoError(
                "more bytes than 64 bits can count".to_owned(),
            ),
            TaskError::OutOfTurn => TransferError::Invalid {
                message: "event out of turn".to_owned(),
            },
        }
    }

    /// The failure for a pool error.
    pub fn from_pool(error: PoolError) -> (e: TransferError)
        ensures
            e@ == pool_failure(error),
    {
        match error {
            PoolError::NoWorkers => TransferError::Invalid {
                message: "at least one worker is needed".to_owned(),
            },
            PoolError::WorkerLost => TransferError::ThreadJoinError,
        }
    }

    /// The failure for refused settings.
    pub fn from_config(error: ConfigError) -> (e: TransferError)
        ensures
            e@ == config_failure(error),
    {
        match error {
            ConfigError::NoWorkers => TransferError::Invalid {
                message: "at least one worker is needed".to_owned(),
            },
            ConfigError::EmptyChunk => TransferError::Invalid {
                message: "the chunk size must not be zero".to_owned(),
            },
        }
    }

    /// The failure for a failed search for an authentication method.
    pub fn from_auth(error: AuthError) -> (e: TransferError)
        ensures
            e@ == auth_failure(error),
    {
        match error {
            AuthError::NoHomeDirectory => TransferError::Invalid {
                message: "Cannot determine home directory".to_owned(),
            },
            AuthError::OutOfTurn => TransferError::Invalid {
                message: "answer out of turn".to_owned(),
            },
        }
    }
}

} // verus!
