use dot::config::{ConfigManager, DotConfig};
use dot::error::RepositoryError;
use dot::git_operations::GitOperations;
use dot::index::{IndexData, IndexManager};
use dot::repository::{gitignore_content, InitAction, InitEvent, RepositoryManager};

fn acme_config() -> ConfigManager {
    ConfigManager::new(DotConfig {
        authorized_organizations: vec!["acme".to_string()],
        default_organization: Some("acme".to_string()),
        github_token: None,
    })
}

fn acme_manager() -> RepositoryManager {
    let config = acme_config();
    let index_manager = IndexManager::new(&config, IndexData::default()).unwrap();
    RepositoryManager::new(config, index_manager)
}

/// A fresh parent repository whose origin is `git@github.com:acme/widgets.git`.
fn parent_repo() -> (tempfile::TempDir, String) {
    let temp_dir = tempfile::TempDir::new().unwrap();
    let path = temp_dir.path().to_str().unwrap().to_string();
    let repo = git2::Repository::init(temp_dir.path()).unwrap();
    repo.remote("origin", "git@github.com:acme/widgets.git").unwrap();
    let mut cfg = repo.config().unwrap();
    cfg.set_str("user.name", "Test User").unwrap();
    cfg.set_str("user.email", "test@example.com").unwrap();
    (temp_dir, path)
}

#[test]
fn test_repository_manager_creation() {
    let manager = acme_manager();
    assert_eq!(manager.index_manager.get_organization().as_str(), "acme");
    assert!(manager.github_client.token.is_none());
}

#[test]
fn test_command_targets_put_parent_last() {
    let hidden = vec!["/p/.kiro".to_string(), "/p/.vibe".to_string()];
    let targets = RepositoryManager::command_targets(&hidden, "/p");
    assert_eq!(targets, vec!["/p/.kiro".to_string(), "/p/.vibe".to_string(), "/p".to_string()]);
}

#[test]
fn test_push_report_lines() {
    let report = RepositoryManager::push_report(&vec![".kiro".to_string()]);
    assert_eq!(report, "Hidden repository '.kiro': pushed\nParent repository: pushed");
    let only_parent = RepositoryManager::push_report(&Vec::new());
    assert_eq!(only_parent, "Parent repository: pushed");
}

#[test]
fn test_gitignore_content_blankets_everything_but_itself() {
    assert_eq!(gitignore_content(), "*\n!.gitignore");
}

#[test]
fn test_generate_hidden_repo_url() {
    let manager = acme_manager();
    assert_eq!(
        manager.generate_hidden_repo_url("b3765e58d766f008ade25f9864a5f3ec"),
        "git@github.com:acme/b3765e58d766f008ade25f9864a5f3ec.git"
    );
}

#[test]
fn test_init_registers_hidden_repository() {
    let (_keep, parent) = parent_repo();
    let mut manager = acme_manager();

    let mut session = manager
        .init_project(vec![".kiro".to_string()], false, false, &parent)
        .unwrap();

    match session.next_action() {
        InitAction::CreateDirectory { path } => {
            assert_eq!(path, format!("{}/.kiro", parent));
        }
        other => panic!("expected a directory creation, got {:?}", other),
    }
    session.on_event(InitEvent::Succeeded);

    match session.next_action() {
        InitAction::WriteGitignore { path, content } => {
            assert_eq!(path, format!("{}/.kiro/.gitignore", parent));
            assert_eq!(content, "*\n!.gitignore");
        }
        other => panic!("expected the gitignore write, got {:?}", other),
    }
    session.on_event(InitEvent::Succeeded);

    match session.next_action() {
        InitAction::CreateRemoteRepository { organization, name, description } => {
            assert_eq!(organization, "acme");
            assert_eq!(name, "9a8861d6c5b4b440623f28ec204a204e");
            assert_eq!(description, "Hidden repository for github.com:acme/widgets/.kiro");
        }
        other => panic!("expected the remote creation, got {:?}", other),
    }
    session.on_event(InitEvent::RemoteCreated {
        remote_url: "git@github.com:acme/9a8861d6c5b4b440623f28ec204a204e.git".to_string(),
    });

    assert!(matches!(session.next_action(), InitAction::Finished));
    manager.finish_init(session).unwrap();

    assert!(manager.index_manager.project_exists("github.com:acme/widgets/.kiro"));
    // the local hidden repository was attached
    assert!(GitOperations::is_git_initialized(&format!("{}/.kiro", parent)));

    // the managed parent now reports with the expected section headers
    let report = manager.status(false, &parent).unwrap();
    assert!(report.starts_with("=== Parent Repository ==="));
    assert!(report.contains("=== Hidden Repository: .kiro ==="));

    // a repeated call fails before returning any action to perform
    match manager.init_project(vec![".kiro".to_string()], false, false, &parent) {
        Err(RepositoryError::ProjectAlreadyExists(key)) => {
            assert_eq!(key, "github.com:acme/widgets/.kiro");
        }
        other => panic!("expected a duplicate-project error, got {:?}", other.is_ok()),
    }
}

#[test]
fn test_atomic_init_rolls_back_completed_directories() {
    let (_keep, parent) = parent_repo();
    let mut manager = acme_manager();

    let mut session = manager
        .init_project(vec!["a".to_string(), "b".to_string()], false, false, &parent)
        .unwrap();

    // directory "a" completes
    assert!(matches!(session.next_action(), InitAction::CreateDirectory { .. }));
    session.on_event(InitEvent::Succeeded);
    assert!(matches!(session.next_action(), InitAction::WriteGitignore { .. }));
    session.on_event(InitEvent::Succeeded);
    assert!(matches!(session.next_action(), InitAction::CreateRemoteRepository { .. }));
    session.on_event(InitEvent::RemoteCreated {
        remote_url: "git@github.com:acme/e73e96e4665bc12b2615249d9875d286.git".to_string(),
    });

    // directory "b" fails at remote creation
    assert!(matches!(session.next_action(), InitAction::CreateDirectory { .. }));
    session.on_event(InitEvent::Succeeded);
    assert!(matches!(session.next_action(), InitAction::WriteGitignore { .. }));
    session.on_event(InitEvent::Succeeded);
    match session.next_action() {
        InitAction::CreateRemoteRepository { name, .. } => {
            assert_eq!(name, "e10eb4ebb08edee4e27d592072ca05cb");
        }
        other => panic!("expected the remote creation, got {:?}", other),
    }
    session.on_event(InitEvent::Failed { message: "remote refused".to_string() });

    // compensation: first the failed directory this transaction created,
    // then the completed ones in reverse, directory before remote
    match session.next_action() {
        InitAction::RemoveDirectory { path } => assert_eq!(path, format!("{}/b", parent)),
        other => panic!("expected b's removal, got {:?}", other),
    }
    session.on_event(InitEvent::Succeeded);
    match session.next_action() {
        InitAction::RemoveDirectory { path } => assert_eq!(path, format!("{}/a", parent)),
        other => panic!("expected a's removal, got {:?}", other),
    }
    session.on_event(InitEvent::Succeeded);
    match session.next_action() {
        InitAction::DeleteRemoteRepository { organization, name } => {
            assert_eq!(organization, "acme");
            assert_eq!(name, "e73e96e4665bc12b2615249d9875d286");
        }
        other => panic!("expected a's remote deletion, got {:?}", other),
    }
    session.on_event(InitEvent::Succeeded);
    assert!(matches!(session.next_action(), InitAction::Aborted));

    // no registration for "a" remains
    assert!(!manager.index_manager.project_exists("github.com:acme/widgets/a"));
    assert!(manager.index_manager.index_data.projects.is_empty());
}

#[test]
fn test_init_never_removes_a_pre_existing_directory() {
    let (_keep, parent) = parent_repo();
    let mut manager = acme_manager();

    // the hidden directory already exists on disk before the call
    let existing = tempfile::Builder::new()
        .prefix("keep")
        .rand_bytes(0)
        .tempdir_in(&parent)
        .unwrap();

    let mut session = manager
        .init_project(vec!["keep".to_string()], false, false, &parent)
        .unwrap();

    // no directory creation is scheduled: the walk starts at the gitignore
    assert!(matches!(session.next_action(), InitAction::WriteGitignore { .. }));
    session.on_event(InitEvent::Succeeded);
    assert!(matches!(session.next_action(), InitAction::CreateRemoteRepository { .. }));
    session.on_event(InitEvent::Failed { message: "remote refused".to_string() });

    // the pre-existing directory is never scheduled for removal: with
    // nothing completed, the transaction aborts at once
    assert!(matches!(session.next_action(), InitAction::Aborted));
    assert!(existing.path().exists());
}

#[test]
fn test_init_skip_hidden_is_a_finished_noop() {
    let (_keep, parent) = parent_repo();
    let mut manager = acme_manager();
    let session = manager
        .init_project(vec![".kiro".to_string()], true, false, &parent)
        .unwrap();
    assert!(matches!(session.next_action(), InitAction::Finished));
    manager.finish_init(session).unwrap();
    assert!(!manager.index_manager.project_exists("github.com:acme/widgets/.kiro"));
}

#[test]
fn test_clone_project_derives_default_directory() {
    // a local source repository with one commit stands in for the remote
    let source = tempfile::TempDir::new().unwrap();
    let source_path = source.path().to_str().unwrap().to_string();
    GitOperations::init_repository(&source_path).unwrap();
    GitOperations::commit(&source_path, "seed").unwrap();

    let dest = tempfile::TempDir::new().unwrap();
    let dest_path = dest.path().to_str().unwrap().to_string();

    let manager = acme_manager();
    let outcomes = manager.clone_project(source_path.clone(), None, &dest_path).unwrap();
    // no hidden repositories are bound to this parent
    assert!(outcomes.is_empty());
    // without a `.git` suffix the directory name falls back to `repo`
    assert!(GitOperations::is_git_initialized(&format!("{}/repo", dest_path)));
}

#[test]
fn test_get_remote_origin_without_remote_is_a_git_error() {
    let temp_dir = tempfile::TempDir::new().unwrap();
    let path = temp_dir.path().to_str().unwrap().to_string();
    GitOperations::init_repository(&path).unwrap();
    match GitOperations::get_remote_origin(&path) {
        Err(RepositoryError::GitError { .. }) => {}
        other => panic!("expected a git error, got {:?}", other),
    }
}

#[test]
fn test_multi_repo_add_without_hidden_repositories() {
    let (_keep, parent) = parent_repo();
    let manager = acme_manager();
    // no hidden repositories are bound; only the parent is staged, and a
    // nonexistent file is silently skipped
    let result =
        manager.multi_repo_add(vec!["missing.txt".to_string()], false, false, &parent);
    assert!(result.is_ok());
}

#[test]
fn test_status_reports_unmanaged_directory() {
    let temp_dir = tempfile::TempDir::new().unwrap();
    let path = temp_dir.path().to_str().unwrap().to_string();
    GitOperations::init_repository(&path).unwrap();
    let manager = acme_manager();
    let report = manager.status(false, &path).unwrap();
    assert_eq!(
        report,
        "This directory is not initialized with dot. Run 'dot init <directory>' to initialize."
    );
}
