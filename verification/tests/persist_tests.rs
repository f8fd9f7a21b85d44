use azure_credit_burner::llm::schemas::github_response::RepoInfo;
use azure_credit_burner::llm::schemas::openai_response::ChatMessage;
use azure_credit_burner::persist::{persisted_turn, response_dir, save_response};

fn repo() -> RepoInfo {
    RepoInfo { owner: "acme".to_string(), repo: "tool".to_string(), max_files: 5 }
}

fn history() -> Vec<ChatMessage> {
    vec![
        ChatMessage { role: "system".to_string(), content: "s".to_string() },
        ChatMessage { role: "user".to_string(), content: "u".to_string() },
        ChatMessage { role: "assistant".to_string(), content: "a".to_string() },
    ]
}

#[test]
fn directory_of_a_target() {
    assert_eq!(response_dir("out", &repo()), "out/acme_tool");
}

#[test]
fn record_and_name_of_a_turn() {
    let (name, data) = persisted_turn(
        "out",
        &repo(),
        "code review x",
        "east",
        12,
        &history(),
        345,
        "STAMP",
        "TIME".to_string(),
    );
    assert_eq!(name, "out/acme_tool/code_review_x_east_12_turnSTAMP.json");
    assert_eq!(data.repo, "acme/tool");
    assert_eq!(data.debate_type, "code review x");
    assert_eq!(data.turn, 12);
    assert_eq!(data.timestamp, "TIME");
    assert_eq!(data.endpoint, "east");
    assert_eq!(data.tokens_used, 345);
    assert_eq!(data.messages.len(), 3);
    assert_eq!(data.messages[2].role, "assistant");
    assert_eq!(data.messages[2].content, "a");
}

#[test]
fn time_of_writing_is_printed_in_utc() {
    let (name, data) =
        save_response("out", &repo(), "t", "east", 1, &history(), 9, 1_700_000_000, 0).unwrap();
    assert_eq!(name, "out/acme_tool/t_east_1_turn20231114_221320.json");
    assert_eq!(data.timestamp, "2023-11-14T22:13:20+00:00");
    assert_eq!(data.turn, 1);
    assert_eq!(data.messages.len(), 3);
    let (name, data) =
        save_response("out", &repo(), "t", "east", 2, &history(), 9, 0, 500_000_000).unwrap();
    assert_eq!(name, "out/acme_tool/t_east_2_turn19700101_000000.json");
    assert_eq!(data.timestamp, "1970-01-01T00:00:00.500+00:00");
}

#[test]
fn later_turns_get_other_names() {
    let a = save_response("o", &repo(), "t", "e", 1, &history(), 0, 1_700_000_000, 0).unwrap().0;
    let b = save_response("o", &repo(), "t", "e", 2, &history(), 0, 1_700_000_000, 0).unwrap().0;
    let c = save_response("o", &repo(), "t", "e", 1, &history(), 0, 1_700_000_001, 0).unwrap().0;
    assert_ne!(a, b);
    assert_ne!(a, c);
}

#[test]
fn an_instant_out_of_range_stores_nothing() {
    assert!(save_response("o", &repo(), "t", "e", 1, &history(), 0, i64::MAX, 0).is_none());
    assert!(save_response("o", &repo(), "t", "e", 1, &history(), 0, 0, 2_000_000_000).is_none());
}
