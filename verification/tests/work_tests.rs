use azure_credit_burner::llm::schemas::github_response::RepoInfo;
use azure_credit_burner::llm::schemas::openai_response::Endpoint;
use azure_credit_burner::work::{build_work_items, select_endpoint};

fn repo(name: &str) -> RepoInfo {
    RepoInfo { owner: "acme".to_string(), repo: name.to_string(), max_files: 5 }
}

#[test]
fn fan_out_pairs_every_target_with_every_dimension() {
    let repos = vec![repo("r0"), repo("r1")];
    let types = vec!["t0".to_string(), "t1".to_string(), "t2".to_string()];
    let items = build_work_items(&repos, &types, 4);
    let got: Vec<(String, String, usize)> = items
        .iter()
        .map(|w| (w.repo_info.repo.clone(), w.debate_type.clone(), w.endpoint_index))
        .collect();
    let expected: Vec<(String, String, usize)> = [
        ("r0", "t0", 0),
        ("r0", "t0", 3),
        ("r0", "t1", 2),
        ("r0", "t2", 3),
        ("r0", "t2", 2),
        ("r1", "t0", 1),
        ("r1", "t1", 2),
        ("r1", "t2", 3),
    ]
    .iter()
    .map(|(r, t, e)| (r.to_string(), t.to_string(), *e))
    .collect();
    assert_eq!(got, expected);
    assert!(items.iter().all(|w| w.repo_info.owner == "acme" && w.repo_info.max_files == 5));
}

#[test]
fn fan_out_edge_cases() {
    assert!(build_work_items(&Vec::new(), &vec!["t".to_string()], 3).is_empty());
    assert!(build_work_items(&vec![repo("r")], &Vec::new(), 3).is_empty());
    let one = build_work_items(&vec![repo("r")], &vec!["t".to_string()], 1);
    assert_eq!(one.len(), 2);
    assert!(one.iter().all(|w| w.endpoint_index == 0));
}

#[test]
fn endpoints_are_used_round_robin() {
    let pool: Vec<Endpoint> = ["a", "b", "c"]
        .iter()
        .map(|n| Endpoint { name: n.to_string(), key: "k".to_string(), endpoint: "e".to_string() })
        .collect();
    assert_eq!(select_endpoint(&pool, 0).name, "a");
    assert_eq!(select_endpoint(&pool, 2).name, "c");
    assert_eq!(select_endpoint(&pool, 3).name, "a");
    assert_eq!(select_endpoint(&pool, 7).name, "b");
}
