use azure_credit_burner::conversation::{
    Action, ConversationState, Phase, Terminal, MAX_CONSECUTIVE_ERRORS, MAX_TURNS,
};
use azure_credit_burner::llm::schemas::github_response::RepoInfo;
use azure_credit_burner::questions::DeepQuestions;

fn repo() -> RepoInfo {
    RepoInfo { owner: "acme".to_string(), repo: "tool".to_string(), max_files: 5 }
}

fn begun() -> ConversationState {
    let mut state = ConversationState::new();
    state.begin("system text".to_string(), "opening".to_string());
    state
}

#[test]
fn a_new_conversation_waits_to_be_initialized() {
    let state = ConversationState::new();
    assert_eq!(state.phase, Phase::Initializing);
    assert_eq!(state.turn, 1);
    assert_eq!(state.consecutive_errors, 0);
    assert!(state.messages.is_empty());
    assert_eq!(state.next_action(), Action::Initialize);
    assert!(!state.is_terminated());
}

#[test]
fn begin_sets_up_the_history() {
    let state = begun();
    assert_eq!(state.phase, Phase::AwaitingResponse);
    assert_eq!(state.next_action(), Action::CallRemote);
    assert_eq!(state.messages.len(), 2);
    assert_eq!(state.messages[0].role, "system");
    assert_eq!(state.messages[0].content, "system text");
    assert_eq!(state.messages[1].role, "user");
    assert_eq!(state.messages[1].content, "opening");
}

#[test]
fn persisted_turns_are_consecutive_from_one() {
    let questions = DeepQuestions::new(Vec::new());
    let mut state = begun();
    let mut persisted = Vec::new();
    let mut lengths = Vec::new();
    let mut calls = 0;
    while state.next_action() == Action::CallRemote {
        calls += 1;
        if calls % 3 == 0 {
            state.fail_turn();
            continue;
        }
        state.accept_reply(format!("reply {}", calls));
        assert_eq!(state.next_action(), Action::PersistAndAdvance);
        let (turn, snapshot) = state.snapshot();
        assert_eq!(snapshot.len(), 2 * turn + 1);
        assert_eq!(snapshot[snapshot.len() - 1].role, "assistant");
        persisted.push(turn);
        lengths.push(snapshot.len());
        state.advance(&repo(), &questions);
    }
    assert_eq!(persisted, (1..=MAX_TURNS).collect::<Vec<usize>>());
    assert!(lengths.windows(2).all(|w| w[0] < w[1]));
    assert_eq!(state.phase, Phase::Terminated(Terminal::Success));
    assert_eq!(state.next_action(), Action::Stop(Terminal::Success));
    assert!(state.is_terminated());
    assert_eq!(state.turn, MAX_TURNS + 1);
    assert_eq!(state.messages.len(), 2 * (MAX_TURNS + 1));
}

#[test]
fn three_failures_in_a_row_abort() {
    let mut state = begun();
    state.fail_turn();
    assert_eq!(state.phase, Phase::AwaitingResponse);
    assert_eq!(state.consecutive_errors, 1);
    state.fail_turn();
    assert_eq!(state.phase, Phase::AwaitingResponse);
    state.fail_turn();
    assert_eq!(state.consecutive_errors, MAX_CONSECUTIVE_ERRORS);
    assert_eq!(state.phase, Phase::Terminated(Terminal::Aborted));
    assert_eq!(state.next_action(), Action::Stop(Terminal::Aborted));
    assert_eq!(state.turn, 1);
    assert_eq!(state.messages.len(), 2);
}

#[test]
fn a_success_resets_the_failure_count() {
    let questions = DeepQuestions::new(Vec::new());
    let mut state = begun();
    state.fail_turn();
    state.fail_turn();
    state.accept_reply("ok".to_string());
    state.advance(&repo(), &questions);
    assert_eq!(state.consecutive_errors, 0);
    assert_eq!(state.turn, 2);
    state.fail_turn();
    state.fail_turn();
    assert_eq!(state.phase, Phase::AwaitingResponse);
    state.fail_turn();
    assert_eq!(state.phase, Phase::Terminated(Terminal::Aborted));
    assert_eq!(state.turn, 2);
}

#[test]
fn terminal_states_are_final() {
    let questions = DeepQuestions::new(Vec::new());
    let mut state = begun();
    state.fail_turn();
    state.fail_turn();
    state.fail_turn();
    state.begin("again".to_string(), "again".to_string());
    state.accept_reply("late".to_string());
    state.advance(&repo(), &questions);
    state.fail_turn();
    assert_eq!(state.phase, Phase::Terminated(Terminal::Aborted));
    assert_eq!(state.turn, 1);
    assert_eq!(state.consecutive_errors, 3);
    assert_eq!(state.messages.len(), 2);
}

#[test]
fn transitions_only_fire_in_their_phase() {
    let questions = DeepQuestions::new(Vec::new());
    let mut state = ConversationState::new();
    state.accept_reply("early".to_string());
    state.advance(&repo(), &questions);
    state.fail_turn();
    assert_eq!(state.phase, Phase::Initializing);
    assert!(state.messages.is_empty());
    let mut state = begun();
    state.advance(&repo(), &questions);
    state.begin("x".to_string(), "y".to_string());
    assert_eq!(state.phase, Phase::AwaitingResponse);
    assert_eq!(state.messages.len(), 2);
    state.accept_reply("r".to_string());
    state.fail_turn();
    state.accept_reply("r2".to_string());
    assert_eq!(state.phase, Phase::Advancing);
    assert_eq!(state.messages.len(), 3);
    assert_eq!(state.consecutive_errors, 0);
}

#[test]
fn advance_appends_the_next_question() {
    let questions = DeepQuestions::new(Vec::new());
    let mut state = begun();
    state.accept_reply("r".to_string());
    state.advance(&repo(), &questions);
    assert_eq!(state.messages.len(), 4);
    assert_eq!(state.messages[2].role, "assistant");
    assert_eq!(state.messages[2].content, "r");
    assert_eq!(state.messages[3].role, "user");
    assert_eq!(
        state.messages[3].content,
        "「acme/tool」リポジトリを分析します。まず、このプロジェクトの概要と主要コンポーネントを特定しましょう。"
    );
}
