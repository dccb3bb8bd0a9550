use dot::config::{ConfigManager, DotConfig};
use dot::error::ConfigError;

#[test]
fn test_default_config_creation() {
    let config = ConfigManager::new(DotConfig::default());
    assert!(config.config.authorized_organizations.is_empty());
    assert!(config.config.default_organization.is_none());
}

#[test]
fn test_organization_management() {
    let mut config = ConfigManager::new(DotConfig::default());

    config.add_organization("test-org".to_string()).unwrap();
    assert!(config.is_organization_authorized("test-org"));

    // adding the same organization twice changes nothing
    config.add_organization("test-org".to_string()).unwrap();
    assert_eq!(config.config.authorized_organizations.len(), 1);

    config.remove_organization("test-org").unwrap();
    assert!(!config.is_organization_authorized("test-org"));
}

#[test]
fn test_set_default_organization_requires_authorization() {
    let mut config = ConfigManager::new(DotConfig::default());
    let result = config.set_default_organization("acme".to_string());
    assert!(matches!(result, Err(ConfigError::OrganizationNotAuthorized)));
    assert!(config.get_default_organization().is_none());

    config.add_organization("acme".to_string()).unwrap();
    config.set_default_organization("acme".to_string()).unwrap();
    assert_eq!(config.get_default_organization(), Some(&"acme".to_string()));
}

#[test]
fn test_github_token_is_carried() {
    let config = ConfigManager::new(DotConfig {
        authorized_organizations: vec![],
        default_organization: None,
        github_token: Some("SECRET-REDACTED".to_string()),
    });
    assert_eq!(config.get_github_token(), Some("SECRET-REDACTED".to_string()));
}
