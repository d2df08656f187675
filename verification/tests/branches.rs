use repo_sync::git::branches::{parse_branch_line, parse_branch_list, BranchUpstreamPair};

fn with_upstream(local: &str, upstream: &str) -> BranchUpstreamPair {
    BranchUpstreamPair { local: local.to_string(), upstream: Some(upstream.to_string()) }
}

fn without_upstream(local: &str) -> BranchUpstreamPair {
    BranchUpstreamPair { local: local.to_string(), upstream: None }
}

#[test]
fn branch_line_with_upstream() {
    assert_eq!(parse_branch_line("main:origin/main"), Some(with_upstream("main", "origin/main")));
    assert_eq!(parse_branch_line(" main : origin/main "), Some(with_upstream("main", "origin/main")));
    assert_eq!(parse_branch_line("a:b:c"), Some(with_upstream("a", "b:c")));
    assert_eq!(parse_branch_line(":origin/x"), Some(with_upstream("", "origin/x")));
    assert_eq!(parse_branch_line("main: "), Some(with_upstream("main", "")));
}

#[test]
fn branch_line_without_upstream() {
    assert_eq!(parse_branch_line("feature:"), Some(without_upstream("feature")));
    assert_eq!(parse_branch_line(" feature :"), Some(without_upstream("feature")));
    assert_eq!(parse_branch_line("a:b:"), Some(without_upstream("a:b")));
    assert_eq!(parse_branch_line(":"), Some(without_upstream("")));
}

#[test]
fn branch_line_without_colon_names_nothing() {
    assert_eq!(parse_branch_line(""), None);
    assert_eq!(parse_branch_line("main"), None);
    assert_eq!(parse_branch_line("main origin/main"), None);
}

#[test]
fn branch_list_in_order_with_untracked_branches() {
    let listing = "dev:origin/dev\nlocal-only:\nmain:origin/main\r\n";
    assert_eq!(
        parse_branch_list(listing),
        Ok(vec![with_upstream("dev", "origin/dev"), without_upstream("local-only"), with_upstream("main", "origin/main")])
    );
    assert_eq!(parse_branch_list(""), Ok(vec![]));
}

#[test]
fn branch_list_with_a_line_that_names_nothing() {
    assert_eq!(
        parse_branch_list("main:origin/main\n\nbroken\nalso broken\n"),
        Err("".to_string())
    );
    assert_eq!(parse_branch_list("a:b\nbroken"), Err("broken".to_string()));
}
