use azure_credit_burner::conversation::Terminal;
use azure_credit_burner::scheduler::{
    outcome_of, outcome_of_selection, FailureReason, Scheduler, TaskOutcome,
};
use azure_credit_burner::selector::SelectionError;

#[test]
fn never_more_than_the_limit_and_everything_resolves() {
    let (k, m) = (2usize, 5usize);
    let mut s = Scheduler::new(m, k);
    let mut order = Vec::new();
    let mut steps = 0;
    while !s.is_done() {
        steps += 1;
        assert!(steps <= 2 * m);
        while let Some(id) = s.admit_next() {
            order.push(id);
            assert!(s.running_count() <= k);
        }
        assert!(s.running_count() >= 1);
        let id = s.running[s.running.len() - 1];
        assert!(s.complete(id, TaskOutcome::Success));
        assert!(s.running_count() < k);
    }
    assert_eq!(order, vec![0, 1, 2, 3, 4]);
    for id in 0..m {
        assert_eq!(s.outcome(id), Some(TaskOutcome::Success));
    }
    assert_eq!(s.counts(), (5, 0));
    assert_eq!(s.admit_next(), None);
}

#[test]
fn admission_stops_at_the_limit() {
    let mut s = Scheduler::new(4, 2);
    assert_eq!(s.admit_next(), Some(0));
    assert_eq!(s.admit_next(), Some(1));
    assert_eq!(s.admit_next(), None);
    assert_eq!(s.running_count(), 2);
    assert!(s.complete(0, TaskOutcome::Success));
    assert_eq!(s.admit_next(), Some(2));
    assert_eq!(s.admit_next(), None);
    assert_eq!(s.running, vec![1, 2]);
}

#[test]
fn one_aborted_task_leaves_the_others_alone() {
    let mut s = Scheduler::new(4, 3);
    for _ in 0..3 {
        s.admit_next();
    }
    assert!(s.complete(1, TaskOutcome::Failure(FailureReason::Aborted)));
    assert_eq!(s.outcome(0), None);
    assert_eq!(s.outcome(2), None);
    assert_eq!(s.running, vec![0, 2]);
    assert_eq!(s.limit, 3);
    assert_eq!(s.admit_next(), Some(3));
    assert!(s.complete(0, TaskOutcome::Success));
    assert!(s.complete(2, TaskOutcome::Success));
    assert!(s.complete(3, TaskOutcome::Success));
    assert!(s.is_done());
    assert_eq!(s.outcome(0), Some(TaskOutcome::Success));
    assert_eq!(s.outcome(1), Some(TaskOutcome::Failure(FailureReason::Aborted)));
    assert_eq!(s.outcome(2), Some(TaskOutcome::Success));
    assert_eq!(s.outcome(3), Some(TaskOutcome::Success));
    assert_eq!(s.counts(), (3, 1));
}

#[test]
fn only_running_items_can_report() {
    let mut s = Scheduler::new(3, 1);
    assert!(!s.complete(0, TaskOutcome::Success));
    assert_eq!(s.admit_next(), Some(0));
    assert!(!s.complete(1, TaskOutcome::Success));
    assert!(!s.complete(7, TaskOutcome::Success));
    assert!(s.complete(0, TaskOutcome::Failure(FailureReason::NoFiles)));
    assert!(!s.complete(0, TaskOutcome::Success));
    assert_eq!(s.outcome(0), Some(TaskOutcome::Failure(FailureReason::NoFiles)));
    assert_eq!(s.outcome(1), None);
    assert_eq!(s.outcome(9), None);
    assert_eq!(s.counts(), (0, 1));
}

#[test]
fn edge_cases() {
    let mut none = Scheduler::new(0, 3);
    assert!(none.is_done());
    assert_eq!(none.admit_next(), None);
    assert_eq!(none.counts(), (0, 0));
    let mut stuck = Scheduler::new(2, 0);
    assert_eq!(stuck.admit_next(), None);
    assert!(!stuck.is_done());
    let mut wide = Scheduler::new(2, 10);
    assert_eq!(wide.admit_next(), Some(0));
    assert_eq!(wide.admit_next(), Some(1));
    assert_eq!(wide.admit_next(), None);
}

#[test]
fn outcomes_of_terminal_states() {
    assert_eq!(outcome_of(Terminal::Success), TaskOutcome::Success);
    assert_eq!(outcome_of(Terminal::Aborted), TaskOutcome::Failure(FailureReason::Aborted));
    assert_eq!(outcome_of(Terminal::Exhausted), TaskOutcome::Failure(FailureReason::Exhausted));
    assert_eq!(
        outcome_of_selection(SelectionError::EmptyResult),
        TaskOutcome::Failure(FailureReason::NoFiles)
    );
}
