use repo_sync::error::RepoSyncError;

#[test]
fn error_constructors_fill_their_variant() {
    assert_eq!(RepoSyncError::io("denied"), RepoSyncError::Io("denied".to_string()));
    assert_eq!(
        RepoSyncError::git("clone", "exit 128"),
        RepoSyncError::Git { operation: "clone".to_string(), message: "exit 128".to_string() }
    );
    assert_eq!(
        RepoSyncError::invalid_url("URL cannot be empty"),
        RepoSyncError::InvalidUrl("URL cannot be empty".to_string())
    );
    assert_eq!(
        RepoSyncError::file_format("repos.txt", 3, "github.com"),
        RepoSyncError::FileFormat {
            file: "repos.txt".to_string(),
            line: 3,
            content: "github.com".to_string()
        }
    );
    assert_eq!(
        RepoSyncError::directory("/out", "read-only"),
        RepoSyncError::Directory { path: "/out".to_string(), message: "read-only".to_string() }
    );
    assert_eq!(RepoSyncError::config("no list"), RepoSyncError::Config("no list".to_string()));
}

#[test]
fn error_descriptions() {
    assert_eq!(RepoSyncError::io("denied").describe(), "I/O error: denied");
    assert_eq!(RepoSyncError::git("clone", "exit 128").describe(), "Git clone failed: exit 128");
    assert_eq!(
        RepoSyncError::invalid_url("URL cannot be empty").describe(),
        "Invalid repository URL: URL cannot be empty"
    );
    assert_eq!(
        RepoSyncError::file_format("repos.txt", 42, "github.com").describe(),
        "Invalid line 42 in file repos.txt: 'github.com'"
    );
    assert_eq!(
        RepoSyncError::file_format("f", 0, "").describe(),
        "Invalid line 0 in file f: ''"
    );
    assert_eq!(
        RepoSyncError::directory("/out", "read-only").describe(),
        "Directory error for '/out': read-only"
    );
    assert_eq!(RepoSyncError::config("no list").describe(), "Configuration error: no list");
}
