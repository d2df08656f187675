use repo_sync::error::RepoSyncError;
use repo_sync::utils::path::extract_repo_name;

#[test]
fn test_extract_repo_name_with_git_suffix() {
    let result = extract_repo_name("https://github.com/user/repo.git").unwrap();
    assert_eq!(result, "repo");
}

#[test]
fn test_extract_repo_name_without_git_suffix() {
    let result = extract_repo_name("https://gitlab.com/group/project").unwrap();
    assert_eq!(result, "project");
}

#[test]
fn test_extract_repo_name_nested_path() {
    let result = extract_repo_name("https://github.com/org/team/repo.git").unwrap();
    assert_eq!(result, "repo");
}

#[test]
fn test_extract_repo_name_empty_url() {
    let result = extract_repo_name("");
    assert!(result.is_err());
}

#[test]
fn extract_repo_name_cuts_the_token_wherever_it_stands() {
    assert_eq!(extract_repo_name("https://h/u/my.github.io").unwrap(), "myhub.io");
    assert_eq!(extract_repo_name("https://h/u/a.git.git").unwrap(), "a");
    assert_eq!(extract_repo_name("https://h/u/.git.x").unwrap(), ".x");
    assert_eq!(extract_repo_name("https://h/u/..gitgit").unwrap(), ".git");
    assert_eq!(extract_repo_name("https://h/u/.gi.gitt").unwrap(), ".git");
    assert_eq!(extract_repo_name("https://h/u/x.gi").unwrap(), "x.gi");
}

#[test]
fn extract_repo_name_takes_the_last_segment() {
    assert_eq!(extract_repo_name("a/b/c").unwrap(), "c");
    assert_eq!(extract_repo_name("/x").unwrap(), "x");
    assert_eq!(extract_repo_name("/\u{e9}t\u{e9}.git").unwrap(), "\u{e9}t\u{e9}");
}

#[test]
fn extract_repo_name_needs_a_slash() {
    for url in ["", "no-slash", "repo.git", " "] {
        match extract_repo_name(url) {
            Err(RepoSyncError::Config(message)) => assert_eq!(
                message,
                format!(
                    "Internal error: Cannot extract repository name from pre-validated URL: {}",
                    url
                )
            ),
            other => panic!("expected a configuration error, got {:?}", other),
        }
    }
}

#[test]
fn extract_repo_name_empty_name_error() {
    for url in ["/", "https://h/u/", "https://h/u/.git", "x/.git.git"] {
        match extract_repo_name(url) {
            Err(RepoSyncError::Config(message)) => assert_eq!(
                message,
                format!("Internal error: Extracted empty repository name from URL: {}", url)
            ),
            other => panic!("expected a configuration error, got {:?}", other),
        }
    }
}
