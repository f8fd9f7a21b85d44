use azure_credit_burner::config::{
    apply_overrides, default_config, env_var_references, references_in, resolve_env_vars, Overrides,
};
use azure_credit_burner::llm::schemas::github_response::RepoInfo;
use azure_credit_burner::llm::schemas::openai_response::Endpoint;

fn pairs(list: &[(&str, &str)]) -> Vec<(String, String)> {
    list.iter().map(|(k, v)| (k.to_string(), v.to_string())).collect()
}

#[test]
fn references_are_found_left_to_right() {
    let found = env_var_references("url=${HOST}:${PORT_1} ${} $HOME ${a-b} ${HOST}");
    assert_eq!(
        found,
        pairs(&[("${HOST}", "HOST"), ("${PORT_1}", "PORT_1"), ("${HOST}", "HOST")])
    );
    assert!(env_var_references("nothing here").is_empty());
    assert!(env_var_references("").is_empty());
}

#[test]
fn name_is_the_reference_without_its_delimiters() {
    let refs = vec!["${A}".to_string(), "${}".to_string(), "ab".to_string(), "".to_string(), "「あ」".to_string()];
    assert_eq!(
        references_in(&refs),
        pairs(&[("${A}", "A"), ("${}", ""), ("ab", ""), ("", ""), ("「あ」", "")])
    );
}

#[test]
fn references_are_replaced_by_their_values() {
    let out = resolve_env_vars(
        "url=${HOST}:${PORT} ${HOST} ${OTHER}",
        &pairs(&[("${HOST}", "h"), ("${PORT}", ""), ("${HOST}", "again")]),
    );
    assert_eq!(out, "url=h: h ${OTHER}");
    assert_eq!(resolve_env_vars("text", &Vec::new()), "text");
}

#[test]
fn overrides_replace_configured_values() {
    let endpoint = Endpoint { name: "e".to_string(), key: "k".to_string(), endpoint: "a".to_string() };
    let repo = RepoInfo { owner: "o".to_string(), repo: "r".to_string(), max_files: 50 };
    let config = default_config("tok".to_string(), vec![endpoint], vec![repo]);
    assert_eq!(config.github_token, "tok");
    assert_eq!(config.output_dir, "llm_debates");
    assert_eq!(config.concurrency, 8);
    assert_eq!(config.max_files, 50);
    assert_eq!(config.max_file_size, 100000);
    let same = apply_overrides(
        config.clone(),
        Overrides { github_token: None, output_dir: None, concurrency: None, max_files: None, max_file_size: None },
    );
    assert_eq!(same.github_token, "tok");
    assert_eq!(same.output_dir, "llm_debates");
    assert_eq!((same.concurrency, same.max_files, same.max_file_size), (8, 50, 100000));
    let changed = apply_overrides(
        config,
        Overrides {
            github_token: Some("new".to_string()),
            output_dir: Some("dir".to_string()),
            concurrency: Some(2),
            max_files: Some(3),
            max_file_size: Some(4),
        },
    );
    assert_eq!(changed.github_token, "new");
    assert_eq!(changed.output_dir, "dir");
    assert_eq!((changed.concurrency, changed.max_files, changed.max_file_size), (2, 3, 4));
    assert_eq!(changed.endpoints.len(), 1);
    assert_eq!(changed.repos[0].repo, "r");
}
