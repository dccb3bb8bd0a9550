use dot::git_operations::{GitOperations, StatusEntry};
use dot::github::hidden_repository_name;
use std::io::Write;

#[test]
fn test_generate_base_key_ssh() {
    let url = "git@github.com:user/repo.git";
    let key = GitOperations::generate_base_key(url).unwrap();
    assert_eq!(key, "github.com:user/repo");
}

#[test]
fn test_generate_base_key_https() {
    let url = "https://github.com/user/repo.git";
    let key = GitOperations::generate_base_key(url).unwrap();
    assert_eq!(key, "github.com/user/repo");
}

#[test]
fn test_generate_base_key_no_git_suffix() {
    let url = "git@github.com:user/repo";
    let key = GitOperations::generate_base_key(url).unwrap();
    assert_eq!(key, "github.com:user/repo");
}

#[test]
fn test_generate_repository_key_with_directory() {
    let url = "git@github.com:user/repo.git";
    let key = GitOperations::generate_repository_key(url, Some(".kiro")).unwrap();
    assert_eq!(key, "github.com:user/repo/.kiro");
}

#[test]
fn test_generate_repository_key_without_directory() {
    let url = "git@github.com:user/repo.git";
    let key = GitOperations::generate_repository_key(url, None).unwrap();
    assert_eq!(key, "github.com:user/repo");
}

#[test]
fn test_invalid_remote_url() {
    let url = "";
    let result = GitOperations::generate_base_key(url);
    assert!(result.is_err());
}

#[test]
fn test_generate_base_key_http() {
    let url = "http://github.com/user/repo.git";
    let key = GitOperations::generate_base_key(url).unwrap();
    assert_eq!(key, "github.com/user/repo");
}

#[test]
fn test_generate_base_key_bare_git_suffix_rejected() {
    // stripping the scheme and the suffix leaves nothing
    let result = GitOperations::generate_base_key("https://.git");
    assert!(result.is_err());
}

#[test]
fn test_hidden_repository_name_is_md5_hex() {
    let name = hidden_repository_name("github.com:user/repo/.kiro");
    assert_eq!(name, "b3765e58d766f008ade25f9864a5f3ec");
    assert_eq!(name.len(), 32);
}

fn entry(path: &str) -> StatusEntry {
    StatusEntry {
        path: path.to_string(),
        index_new: false,
        index_modified: false,
        index_deleted: false,
        wt_new: false,
        wt_modified: false,
        wt_deleted: false,
    }
}

#[test]
fn test_format_status_empty_is_clean() {
    let entries: Vec<StatusEntry> = Vec::new();
    let report = GitOperations::format_status(&entries);
    assert_eq!(report, "nothing to commit, working tree clean");
}

#[test]
fn test_format_status_lines_and_precedence() {
    let mut staged = entry("staged.txt");
    staged.index_new = true;
    // index states take precedence over working-tree states
    staged.wt_modified = true;
    let mut untracked = entry("wild.txt");
    untracked.wt_new = true;
    let mut edited = entry("edited.txt");
    edited.wt_modified = true;
    let quiet = entry("quiet.txt");
    let entries = vec![staged, untracked, edited, quiet];
    let report = GitOperations::format_status(&entries);
    assert_eq!(report, "A  staged.txt\n?? wild.txt\n M edited.txt");
}

#[test]
fn test_git_operations_with_temp_repo() {
    let temp_dir = tempfile::TempDir::new().unwrap();
    let repo_path = temp_dir.path().to_str().unwrap().to_string();

    GitOperations::init_repository(&repo_path).unwrap();
    assert!(GitOperations::is_git_initialized(&repo_path));

    let mut file = tempfile::Builder::new()
        .prefix("test")
        .suffix(".txt")
        .rand_bytes(0)
        .tempfile_in(temp_dir.path())
        .unwrap();
    file.write_all(b"test content").unwrap();
    file.flush().unwrap();

    GitOperations::add_files(&repo_path, &vec!["test.txt".to_string()]).unwrap();

    let status = GitOperations::get_status(&repo_path).unwrap();
    assert!(status.contains("test.txt"));
    let _keep = file;
}
