use dot::config::{ConfigManager, DotConfig};
use dot::error::IndexError;
use dot::git_operations::GitOperations;
use dot::index::{IndexData, IndexManager, IndexSetup, IndexSetupState, ProjectRegistration};

fn acme_config() -> ConfigManager {
    ConfigManager::new(DotConfig {
        authorized_organizations: vec!["acme".to_string()],
        default_organization: Some("acme".to_string()),
        github_token: None,
    })
}

fn registration(key: &str, dir: &str) -> ProjectRegistration {
    ProjectRegistration {
        repository_key: key.to_string(),
        repository_name: "0123456789abcdef0123456789abcdef".to_string(),
        git_user: "testuser".to_string(),
        project_git_path: "git@github.com:user/repo.git".to_string(),
        project_disk_path: "/home/user/repo".to_string(),
        hidden_directory: dir.to_string(),
        created_at: "2024-01-01T00:00:00+00:00".to_string(),
    }
}

#[test]
fn test_manager_requires_default_organization() {
    let config = ConfigManager::new(DotConfig {
        authorized_organizations: vec![],
        default_organization: None,
        github_token: None,
    });
    let result = IndexManager::new(&config, IndexData::default());
    assert!(matches!(result, Err(IndexError::NoDefaultOrganization)));
}

#[test]
fn test_index_data_registration() {
    let mut index_data = IndexData::default();

    let registration = ProjectRegistration {
        repository_key: "github.com/user/repo/.kiro".to_string(),
        repository_name: "b3765e58d766f008ade25f9864a5f3ec".to_string(),
        git_user: "testuser".to_string(),
        project_git_path: "git@github.com:user/repo.git".to_string(),
        project_disk_path: "/home/user/repo".to_string(),
        hidden_directory: ".kiro".to_string(),
        created_at: "2024-01-01T00:00:00+00:00".to_string(),
    };

    index_data.projects.push(registration);
    assert_eq!(index_data.projects.len(), 1);

    let config = acme_config();
    let manager = IndexManager::new(&config, index_data).unwrap();
    assert!(manager.project_exists("github.com/user/repo/.kiro"));
    assert!(!manager.project_exists("github.com/user/repo/.vibe"));
}

#[test]
fn test_register_project_duplicate_leaves_index_unchanged() {
    let config = acme_config();
    let mut manager = IndexManager::new(&config, IndexData::default()).unwrap();

    let first = registration("github.com:acme/widgets/.kiro", ".kiro");
    assert!(manager.register_project(first).is_ok());
    assert_eq!(manager.index_data.projects.len(), 1);

    let mut second = registration("github.com:acme/widgets/.kiro", ".kiro");
    second.git_user = "someone-else".to_string();
    match manager.register_project(second) {
        Err(IndexError::ProjectAlreadyExists(key)) => {
            assert_eq!(key, "github.com:acme/widgets/.kiro");
        }
        other => panic!("expected a duplicate-project error, got {:?}", other),
    }
    // the failed attempt changed nothing
    assert_eq!(manager.index_data.projects.len(), 1);
    assert_eq!(manager.index_data.projects[0].git_user, "testuser");
}

#[test]
fn test_find_projects_by_prefix() {
    let config = acme_config();
    let mut manager = IndexManager::new(&config, IndexData::default()).unwrap();
    manager.register_project(registration("github.com:acme/widgets/.kiro", ".kiro")).unwrap();
    manager.register_project(registration("github.com:acme/widgets/.vibe", ".vibe")).unwrap();
    manager.register_project(registration("github.com:acme/gears/.kiro", ".kiro")).unwrap();

    let found = manager.find_projects_by_base_key("github.com:acme/widgets");
    assert_eq!(found.len(), 2);
    assert_eq!(found[0].repository_key, "github.com:acme/widgets/.kiro");
    assert_eq!(found[1].repository_key, "github.com:acme/widgets/.vibe");

    let none = manager.find_projects_by_base_key("github.com:elsewhere");
    assert!(none.is_empty());
}

#[test]
fn test_index_clone_url_and_local_path() {
    let config = acme_config();
    let manager = IndexManager::new(&config, IndexData::default()).unwrap();
    assert_eq!(manager.index_clone_url(), "git@github.com:acme/.index.git");
    assert_eq!(IndexManager::local_index_path("/home/u"), "/home/u/.dot/.index");
}

#[test]
fn test_setup_ladder_refresh_tolerates_failure() {
    let mut setup = IndexSetup::start(true);
    assert_eq!(setup.state, IndexSetupState::RefreshLocal);
    setup.on_result(false);
    assert_eq!(setup.state, IndexSetupState::LoadDocument);
    setup.on_result(true);
    assert_eq!(setup.state, IndexSetupState::Ready);
}

#[test]
fn test_setup_ladder_clone_falls_back_to_local_creation() {
    let mut setup = IndexSetup::start(false);
    assert_eq!(setup.state, IndexSetupState::CloneRemote);
    setup.on_result(false);
    assert_eq!(setup.state, IndexSetupState::CreateLocal);
    setup.on_result(true);
    assert_eq!(setup.state, IndexSetupState::LoadDocument);
    setup.on_result(false);
    assert_eq!(setup.state, IndexSetupState::Failed);
}

#[test]
fn test_save_and_push_succeeds_without_reachable_remote() {
    let temp_dir = tempfile::TempDir::new().unwrap();
    let path = temp_dir.path().to_str().unwrap().to_string();
    GitOperations::init_repository(&path).unwrap();

    let config = acme_config();
    let manager = IndexManager::new(&config, IndexData::default()).unwrap();
    // both pushes fail; the local state stands and the call succeeds
    assert!(manager.save_and_push_index(&path).is_ok());
}

#[test]
fn test_attach_local_index_initializes_repository() {
    let temp_dir = tempfile::TempDir::new().unwrap();
    let path = temp_dir.path().to_str().unwrap().to_string();

    let config = acme_config();
    let manager = IndexManager::new(&config, IndexData::default()).unwrap();
    manager.attach_local_index(&path).unwrap();
    assert!(GitOperations::is_git_initialized(&path));
}
