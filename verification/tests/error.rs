use ssh_transfer::config::{AuthError, ConfigError};
use ssh_transfer::error::{ErrorCategory, TransferError};
use ssh_transfer::executor::TaskError;
use ssh_transfer::mkdir::MkdirError;
use ssh_transfer::plan::PlanError;
use ssh_transfer::pool::PoolError;

#[test]
fn error_texts() {
    assert_eq!(TransferError::AuthenticationFailed.message(), "Authentication failed");
    assert_eq!(
        TransferError::DirectoryNotAllowed.message(),
        "Directory operations not allowed without recursive flag"
    );
    assert_eq!(TransferError::ThreadJoinError.message(), "Thread join error");
    assert_eq!(
        TransferError::FileNotFound { path: "/x".to_string() }.message(),
        "File not found: /x"
    );
    assert_eq!(
        TransferError::PermissionDenied { path: "/x".to_string() }.message(),
        "Permission denied: /x"
    );
    assert_eq!(
        TransferError::NetworkError { message: "down".to_string() }.message(),
        "Network error: down"
    );
    assert_eq!(TransferError::IoError("eof".to_string()).message(), "IO error: eof");
    assert_eq!(TransferError::SshError("auth".to_string()).message(), "SSH error: auth");
    assert_eq!(
        TransferError::NameExtractionFailed { path: "/".to_string() }.message(),
        "Cannot determine file name: /"
    );
    assert_eq!(
        TransferError::SystemDirectory { path: "/usr".to_string() }.message(),
        "Cannot create system directory: /usr"
    );
    assert_eq!(
        TransferError::NotADirectory { path: "/f".to_string() }.message(),
        "Path exists but is not a directory: /f"
    );
    assert_eq!(
        TransferError::CreateDirectoryFailed { path: "/d".to_string(), cause: "denied".to_string() }
            .message(),
        "Failed to create directory /d: denied"
    );
    assert_eq!(
        TransferError::SourceNotFound { path: "/r/x".to_string(), cause: "no such file".to_string() }
            .message(),
        "Source does not exist: /r/x: no such file"
    );
    assert_eq!(
        TransferError::Invalid { message: "no".to_string() }.message(),
        "Invalid request: no"
    );
}

#[test]
fn only_task_failures_are_not_fatal() {
    let e = TransferError::IoError("x".to_string());
    assert_eq!(e.category(), ErrorCategory::Task);
    assert!(!e.is_fatal());
    assert!(!TransferError::SshError("x".to_string()).is_fatal());
    assert!(!TransferError::NetworkError { message: "x".to_string() }.is_fatal());
    assert!(!TransferError::PermissionDenied { path: "x".to_string() }.is_fatal());
    let e = TransferError::ThreadJoinError;
    assert_eq!(e.category(), ErrorCategory::Coordination);
    assert!(e.is_fatal());
    let e = TransferError::DirectoryNotAllowed;
    assert_eq!(e.category(), ErrorCategory::Configuration);
    assert!(e.is_fatal());
    let e = TransferError::FileNotFound { path: "x".to_string() };
    assert_eq!(e.category(), ErrorCategory::Planning);
    assert!(e.is_fatal());
    assert_eq!(
        TransferError::SystemDirectory { path: "/usr".to_string() }.category(),
        ErrorCategory::Configuration
    );
}

#[test]
fn missing_source_keeps_path_and_cause() {
    let e = TransferError::from_plan(PlanError::SourceNotFound, "/remote/data.bin", "no such file");
    match &e {
        TransferError::SourceNotFound { path, cause } => {
            assert_eq!(path, "/remote/data.bin");
            assert_eq!(cause, "no such file");
        }
        other => panic!("unexpected {:?}", other),
    }
    assert_eq!(e.message(), "Source does not exist: /remote/data.bin: no such file");
    assert_eq!(e.category(), ErrorCategory::Planning);
    assert!(e.is_fatal());
}

#[test]
fn other_errors_convert() {
    assert!(matches!(
        TransferError::from_plan(PlanError::DirectoryNotAllowed, "/s", ""),
        TransferError::DirectoryNotAllowed
    ));
    assert!(matches!(
        TransferError::from_plan(PlanError::NameExtractionFailed, "/", ""),
        TransferError::NameExtractionFailed { path } if path == "/"
    ));
    assert!(matches!(
        TransferError::from_plan(PlanError::TotalTooLarge, "/", ""),
        TransferError::Invalid { .. }
    ));
    assert!(matches!(
        TransferError::from_mkdir(MkdirError::SystemDirectory, "/usr", ""),
        TransferError::SystemDirectory { path } if path == "/usr"
    ));
    assert!(matches!(
        TransferError::from_mkdir(MkdirError::NotADirectory, "/f", ""),
        TransferError::NotADirectory { path } if path == "/f"
    ));
    assert!(matches!(
        TransferError::from_mkdir(MkdirError::CreateFailed, "/d", "permission denied"),
        TransferError::CreateDirectoryFailed { path, cause } if path == "/d" && cause == "permission denied"
    ));
    assert!(matches!(
        TransferError::from_mkdir(MkdirError::OutOfTurn, "/d", ""),
        TransferError::Invalid { .. }
    ));
    assert_eq!(
        TransferError::from_task(TaskError::ReadFailed, "connection reset").message(),
        "IO error: read failed: connection reset"
    );
    assert_eq!(
        TransferError::from_task(TaskError::WriteFailed, "disk full").message(),
        "IO error: write failed: disk full"
    );
    assert!(!TransferError::from_task(TaskError::TooManyBytes, "").is_fatal());
    assert!(TransferError::from_task(TaskError::OutOfTurn, "").is_fatal());
    assert!(matches!(TransferError::from_pool(PoolError::WorkerLost), TransferError::ThreadJoinError));
    assert!(matches!(TransferError::from_pool(PoolError::NoWorkers), TransferError::Invalid { .. }));
    assert_eq!(
        TransferError::from_config(ConfigError::EmptyChunk).message(),
        "Invalid request: the chunk size must not be zero"
    );
    assert_eq!(
        TransferError::from_config(ConfigError::NoWorkers).message(),
        "Invalid request: at least one worker is needed"
    );
    assert_eq!(
        TransferError::from_auth(AuthError::NoHomeDirectory).message(),
        "Invalid request: Cannot determine home directory"
    );
    assert!(matches!(TransferError::from_auth(AuthError::OutOfTurn), TransferError::Invalid { .. }));
}
