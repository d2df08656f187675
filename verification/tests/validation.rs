use repo_sync::error::RepoSyncError;
use repo_sync::utils::validation::normalize_and_validate_url;

#[test]
fn test_normalize_https_url() {
    let result = normalize_and_validate_url("https://github.com/user/repo").unwrap();
    assert_eq!(result, "https://github.com/user/repo");
}

#[test]
fn test_normalize_http_url() {
    let result = normalize_and_validate_url("http://github.com/user/repo").unwrap();
    assert_eq!(result, "https://github.com/user/repo");
}

#[test]
fn test_normalize_bare_url() {
    let result = normalize_and_validate_url("github.com/user/repo").unwrap();
    assert_eq!(result, "https://github.com/user/repo");
}

#[test]
fn test_normalize_with_git_suffix() {
    let result = normalize_and_validate_url("gitlab.com/project.git").unwrap();
    assert_eq!(result, "https://gitlab.com/project.git");
}

#[test]
fn test_normalize_empty_url() {
    let result = normalize_and_validate_url("");
    assert!(result.is_err());
}

#[test]
fn test_normalize_whitespace_url() {
    let result = normalize_and_validate_url("  ");
    assert!(result.is_err());
}

#[test]
fn test_normalize_no_slash() {
    let result = normalize_and_validate_url("github.com");
    assert!(result.is_err());
}

#[test]
fn test_normalize_nested_path() {
    let result = normalize_and_validate_url("github.com/org/team/repo").unwrap();
    assert_eq!(result, "https://github.com/org/team/repo");
}

#[test]
fn validate_empty_reference_message() {
    for raw in ["", "  ", "\t\n", "\u{2003}"] {
        match normalize_and_validate_url(raw) {
            Err(RepoSyncError::InvalidUrl(message)) => assert_eq!(message, "URL cannot be empty"),
            other => panic!("expected an invalid URL, got {:?}", other),
        }
    }
}

#[test]
fn validate_malformed_reference_message() {
    let cases = [
        ("github.com", "github.com"),
        ("http://github.com", "github.com"),
        (" https://github.com ", "https://github.com"),
        ("http://", ""),
        ("https://", "https://"),
    ];
    for (raw, shown) in cases {
        match normalize_and_validate_url(raw) {
            Err(RepoSyncError::InvalidUrl(message)) => assert_eq!(
                message,
                format!("Malformed URL: must have format 'domain.com/repo': {}", shown)
            ),
            other => panic!("expected an invalid URL for {:?}, got {:?}", raw, other),
        }
    }
}

#[test]
fn validate_looks_for_the_slash_behind_the_scheme() {
    assert_eq!(normalize_and_validate_url("https:///").unwrap(), "https:///");
    assert_eq!(normalize_and_validate_url("/").unwrap(), "https:///");
    assert_eq!(normalize_and_validate_url(" a/b ").unwrap(), "https://a/b");
    assert_eq!(normalize_and_validate_url("ftp://h").unwrap(), "https://ftp://h");
}
