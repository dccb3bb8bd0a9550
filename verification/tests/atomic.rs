use dot::atomic::{
    AddOperation, AtomicOperations, CommitOperation, EngineEvent, Operation, PushOperation,
};
use dot::error::OperationError;
use dot::git_operations::GitOperations;
use std::io::Write;

fn temp_repo() -> (tempfile::TempDir, String) {
    let temp_dir = tempfile::TempDir::new().unwrap();
    let repo_path = temp_dir.path().to_str().unwrap().to_string();
    GitOperations::init_repository(&repo_path).unwrap();
    (temp_dir, repo_path)
}

fn write_file(dir: &tempfile::TempDir, name: &str, content: &[u8]) -> tempfile::NamedTempFile {
    let mut file = tempfile::Builder::new()
        .prefix(name)
        .rand_bytes(0)
        .tempfile_in(dir.path())
        .unwrap();
    file.write_all(content).unwrap();
    file.flush().unwrap();
    file
}

#[test]
fn test_atomic_operations_success() {
    let (temp_dir, repo_path) = temp_repo();
    let _file = write_file(&temp_dir, "test.txt", b"test content");

    let mut operations = AtomicOperations::new(false);
    operations.add_operation(Operation::Add(AddOperation::new(
        repo_path.clone(),
        vec!["test.txt".to_string()],
    )));

    let result = operations.execute();
    assert!(result.is_ok());
    assert_eq!(operations.journal, vec![EngineEvent::Executed { index: 0, ok: true }]);
}

#[test]
fn test_non_atomic_operations() {
    let (_temp_dir, repo_path) = temp_repo();

    let mut operations = AtomicOperations::new(true); // best-effort mode

    operations.add_operation(Operation::Add(AddOperation::new(
        repo_path.clone(),
        vec!["nonexistent.txt".to_string()],
    )));

    let result = operations.execute();
    assert!(result.is_ok());
}

#[test]
fn test_best_effort_executes_everything() {
    let (temp_dir, repo_path) = temp_repo();
    let _file = write_file(&temp_dir, "test.txt", b"test content");

    let mut operations = AtomicOperations::new(true); // best-effort mode
    // the push fails (no origin remote), the add succeeds regardless
    operations.add_operation(Operation::Push(PushOperation::new(repo_path.clone())));
    operations.add_operation(Operation::Add(AddOperation::new(
        repo_path.clone(),
        vec!["test.txt".to_string()],
    )));

    let result = operations.execute();
    assert!(result.is_ok());
    assert_eq!(
        operations.journal,
        vec![
            EngineEvent::Executed { index: 0, ok: false },
            EngineEvent::Executed { index: 1, ok: true },
        ]
    );
}

#[test]
fn test_atomic_rollback_on_failure() {
    let (temp_dir, repo_path) = temp_repo();
    let _file = write_file(&temp_dir, "test.txt", b"test content");

    let mut operations = AtomicOperations::new(false); // atomic mode
    operations.add_operation(Operation::Add(AddOperation::new(
        repo_path.clone(),
        vec!["test.txt".to_string()],
    )));
    // fails: the repository has no origin remote
    operations.add_operation(Operation::Push(PushOperation::new(repo_path.clone())));

    let result = operations.execute();
    match result {
        Err(OperationError::AtomicOperationFailed { failed_operation, completed_count, .. }) => {
            assert_eq!(completed_count, 1);
            assert_eq!(failed_operation, format!("Push {}", repo_path));
        }
        other => panic!("expected an atomic failure, got {:?}", other),
    }
    assert_eq!(operations.journal.len(), 3);
    assert_eq!(operations.journal[0], EngineEvent::Executed { index: 0, ok: true });
    assert_eq!(operations.journal[1], EngineEvent::Executed { index: 1, ok: false });
    assert!(matches!(operations.journal[2], EngineEvent::RolledBack { index: 0, .. }));
}

#[test]
fn test_atomic_rollback_order_is_reversed() {
    let (temp_dir, repo_path) = temp_repo();
    let _file = write_file(&temp_dir, "test.txt", b"test content");

    let mut operations = AtomicOperations::new(false); // atomic mode
    operations.add_operation(Operation::Add(AddOperation::new(
        repo_path.clone(),
        vec![".".to_string()],
    )));
    operations.add_operation(Operation::Commit(CommitOperation::new(
        repo_path.clone(),
        "test commit".to_string(),
    )));
    // fails: the repository has no origin remote
    operations.add_operation(Operation::Push(PushOperation::new(repo_path.clone())));

    let result = operations.execute();
    match result {
        Err(OperationError::AtomicOperationFailed { completed_count, .. }) => {
            assert_eq!(completed_count, 2);
        }
        other => panic!("expected an atomic failure, got {:?}", other),
    }
    // executes in order, then rollbacks in strictly decreasing index order;
    // the failed operation itself is never rolled back
    assert_eq!(operations.journal.len(), 5);
    assert_eq!(operations.journal[0], EngineEvent::Executed { index: 0, ok: true });
    assert_eq!(operations.journal[1], EngineEvent::Executed { index: 1, ok: true });
    assert_eq!(operations.journal[2], EngineEvent::Executed { index: 2, ok: false });
    assert!(matches!(operations.journal[3], EngineEvent::RolledBack { index: 1, .. }));
    assert!(matches!(operations.journal[4], EngineEvent::RolledBack { index: 0, .. }));
}

#[test]
fn test_empty_transaction_succeeds() {
    let mut operations = AtomicOperations::new(false);
    let result = operations.execute();
    assert!(result.is_ok());
    assert!(operations.journal.is_empty());
}

#[test]
fn test_add_dot_stages_everything_and_short_circuits() {
    let (temp_dir, repo_path) = temp_repo();
    let _file = write_file(&temp_dir, "test.txt", b"test content");

    let mut operations = AtomicOperations::new(false);
    operations.add_operation(Operation::Add(AddOperation::new(
        repo_path.clone(),
        vec![".".to_string(), "other.txt".to_string()],
    )));
    assert!(operations.execute().is_ok());
    let status = GitOperations::get_status(&repo_path).unwrap();
    assert!(status.contains("A  test.txt"));
}

#[test]
fn test_add_stages_existing_files_in_order() {
    let (temp_dir, repo_path) = temp_repo();
    let _file = write_file(&temp_dir, "test.txt", b"test content");

    let mut op = Operation::Add(AddOperation::new(
        repo_path.clone(),
        vec!["missing.txt".to_string(), "test.txt".to_string()],
    ));
    assert!(op.execute().is_ok());
    match op {
        Operation::Add(a) => assert_eq!(a.staged_files, vec!["test.txt".to_string()]),
        other => panic!("expected the add variant, got {:?}", other.description()),
    }
}

#[test]
fn test_add_dot_later_in_list_still_records_one_dot() {
    let (temp_dir, repo_path) = temp_repo();
    let _file = write_file(&temp_dir, "test.txt", b"test content");

    let mut op = Operation::Add(AddOperation::new(
        repo_path.clone(),
        vec!["test.txt".to_string(), ".".to_string()],
    ));
    assert!(op.execute().is_ok());
    match op {
        Operation::Add(a) => assert_eq!(a.staged_files, vec![".".to_string()]),
        other => panic!("expected the add variant, got {:?}", other.description()),
    }
}

#[test]
fn test_push_rollback_unsupported_after_push() {
    let op = Operation::Push(PushOperation { repository_path: "/r".to_string(), pushed: true });
    match op.rollback() {
        Err(OperationError::RollbackFailed { message }) => {
            assert_eq!(message, "Cannot rollback push operation automatically");
        }
        other => panic!("expected a rollback failure, got {:?}", other),
    }
}

#[test]
fn test_push_rollback_noop_without_push() {
    let op = Operation::Push(PushOperation::new("/r".to_string()));
    assert!(op.rollback().is_ok());
}

#[test]
fn test_operation_descriptions() {
    let add = Operation::Add(AddOperation::new("/r".to_string(), vec![]));
    let commit = Operation::Commit(CommitOperation::new("/r".to_string(), "m".to_string()));
    let push = Operation::Push(PushOperation::new("/r".to_string()));
    assert_eq!(add.description(), "Add files to /r");
    assert_eq!(commit.description(), "Commit to /r");
    assert_eq!(push.description(), "Push /r");
}
