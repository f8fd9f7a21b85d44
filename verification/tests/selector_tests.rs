use azure_credit_burner::llm::schemas::github_response::{FileInfo, RepoInfo};
use azure_credit_burner::selector::{
    cap_content, is_priority_file, order_paths, require_files, select_paths, GitHubClient,
    SelectionError,
};

fn paths(list: &[&str]) -> Vec<String> {
    list.iter().map(|s| s.to_string()).collect()
}

fn client(max_file_size: usize) -> GitHubClient {
    GitHubClient::new("tok".to_string(), "out".to_string(), max_file_size)
}

#[test]
fn priority_paths_come_first_then_lexicographic() {
    let input = paths(&["z/util.rs", "a/b.rs", "docs/README.md", "x/src/lib.rs", "app/main.py"]);
    let out = select_paths(&input, 10);
    assert_eq!(
        out,
        paths(&["app/main.py", "docs/README.md", "x/src/lib.rs", "a/b.rs", "z/util.rs"])
    );
}

#[test]
fn ordering_does_not_depend_on_listing_order() {
    let a = paths(&["b.rs", "README.md", "a.rs", "core.py", "a.rs"]);
    let b = paths(&["a.rs", "a.rs", "core.py", "b.rs", "README.md"]);
    let expected = paths(&["README.md", "core.py", "a.rs", "a.rs", "b.rs"]);
    assert_eq!(order_paths(&a), expected);
    assert_eq!(order_paths(&b), expected);
}

#[test]
fn prefix_sorts_before_extension_and_order_is_by_scalar_value() {
    let input = paths(&["ab", "a", "B", "é", "z"]);
    assert_eq!(order_paths(&input), paths(&["B", "a", "ab", "z", "é"]));
}

#[test]
fn selection_is_capped() {
    let input = paths(&["c.rs", "b.rs", "a.rs"]);
    assert_eq!(select_paths(&input, 2), paths(&["a.rs", "b.rs"]));
    assert_eq!(select_paths(&input, 0), Vec::<String>::new());
    assert_eq!(select_paths(&input, 3), paths(&["a.rs", "b.rs", "c.rs"]));
    assert_eq!(select_paths(&input, 7).len(), 3);
    assert_eq!(select_paths(&Vec::new(), 7).len(), 0);
}

#[test]
fn client_select_uses_the_targets_cap() {
    let repo = RepoInfo { owner: "o".to_string(), repo: "r".to_string(), max_files: 1 };
    let input = paths(&["b.rs", "a.rs"]);
    assert_eq!(client(10).select(&repo, &input), Ok(paths(&["a.rs"])));
}

#[test]
fn nothing_to_select_is_an_error() {
    let some = RepoInfo { owner: "o".to_string(), repo: "r".to_string(), max_files: 3 };
    let none = RepoInfo { owner: "o".to_string(), repo: "r".to_string(), max_files: 0 };
    assert_eq!(client(10).select(&some, &Vec::new()), Err(SelectionError::EmptyResult));
    assert_eq!(client(10).select(&none, &paths(&["a.rs"])), Err(SelectionError::EmptyResult));
    assert_eq!(client(10).select(&some, &paths(&["a.rs"])), Ok(paths(&["a.rs"])));
}

#[test]
fn content_is_capped_by_characters() {
    assert_eq!(cap_content("héllo wörld", 4), "héll...\n(内容省略)...");
    assert_eq!(cap_content("héllo", 5), "héllo");
    assert_eq!(cap_content("héllo", 6), "héllo");
    assert_eq!(cap_content("", 0), "");
    assert_eq!(cap_content("あいう", 0), "...\n(内容省略)...");
    assert_eq!(cap_content("あいう", 2), "あい...\n(内容省略)...");
}

#[test]
fn make_file_caps_with_the_clients_limit() {
    let f = client(3).make_file("a/b.rs".to_string(), "abcdef");
    assert_eq!(f.path, "a/b.rs");
    assert_eq!(f.content, "abc...\n(内容省略)...");
    let g = client(6).make_file("a/b.rs".to_string(), "abcdef");
    assert_eq!(g.content, "abcdef");
}

#[test]
fn priority_rule() {
    assert!(is_priority_file("README.md"));
    assert!(is_priority_file("docs/README.md"));
    assert!(is_priority_file("a/main.go"));
    assert!(is_priority_file("a/core.c"));
    assert!(is_priority_file("x/src/index.ts"));
    assert!(is_priority_file("x/src/a/mod.rs"));
    assert!(is_priority_file("x/src/lib.rs"));
    assert!(!is_priority_file("src/lib.rs"));
    assert!(!is_priority_file("x/lib.rs"));
    assert!(!is_priority_file("README.md.bak"));
    assert!(!is_priority_file("a/maintain.rs"));
}

#[test]
fn code_files_and_excluded_directories() {
    assert!(GitHubClient::is_code_file("a/b.rs"));
    assert!(GitHubClient::is_code_file("a/b.swift"));
    assert!(GitHubClient::is_code_file("x.py"));
    assert!(!GitHubClient::is_code_file("a/b.exe"));
    assert!(!GitHubClient::is_code_file("a/rs"));
    assert!(GitHubClient::is_excluded_dir("x/node_modules/a.js"));
    assert!(GitHubClient::is_excluded_dir("/repo/.git/config"));
    assert!(GitHubClient::is_excluded_dir("a/__pycache__/b.py"));
    assert!(!GitHubClient::is_excluded_dir("node_modules/a.js"));
    assert!(GitHubClient::is_candidate("x/a.js"));
    assert!(!GitHubClient::is_candidate("x/node_modules/a.js"));
    assert!(!GitHubClient::is_candidate("x/a.bin"));
}

#[test]
fn empty_selection_is_an_error() {
    assert_eq!(require_files(Vec::new()).unwrap_err(), SelectionError::EmptyResult);
    let files = vec![FileInfo { path: "a".to_string(), content: "b".to_string() }];
    let kept = require_files(files).unwrap();
    assert_eq!(kept.len(), 1);
    assert_eq!(kept[0].path, "a");
    assert_eq!(kept[0].content, "b");
}

#[test]
fn clone_locations() {
    let repo = RepoInfo { owner: "acme".to_string(), repo: "tool".to_string(), max_files: 5 };
    let c = client(10);
    assert_eq!(c.repo_dir(&repo), "out/repos/acme_tool");
    assert_eq!(c.clone_url(&repo), "https://tok@github.com/acme/tool.git");
}
