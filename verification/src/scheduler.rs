//! The bounded scheduler: which work item starts next, how many run at
//! once, and what became of each.
//!
//! The scheduler owns only indices and outcomes. Work items are admitted in
//! the order in which they were made; an admitted item runs until it reports
//! its outcome, and its place is then free for the next pending item.

use crate::conversation::Terminal;
use crate::selector::SelectionError;
use vstd::prelude::*;

verus! {

/// Why a task failed.
#[derive(Clone, Copy, Debug, PartialEq, Eq, Structural)]
pub enum FailureReason {
    /// The target's files could not be retrieved.
    Retrieval,
    /// No eligible file was found for the target.
    NoFiles,
    /// The conversation was aborted after repeated turn failures.
    Aborted,
    /// The conversation ran out of attempts.
    Exhausted,
    /// The task ended without reporting an outcome of its own.
    Crashed,
}

/// The words in which a failure reason is reported.
pub open spec fn reason_text_of(reason: FailureReason) -> Seq<char> {
    match reason {
        FailureReason::Retrieval => "file retrieval failed"@,
        FailureReason::NoFiles => "no eligible files"@,
        FailureReason::Aborted => "aborted after repeated turn failures"@,
        FailureReason::Exhausted => "attempts exhausted"@,
        FailureReason::Crashed => "task ended without an outcome"@,
    }
}

/// The words in which a failure reason is reported.
pub fn reason_text(reason: FailureReason) -> (text: &'static str)
    ensures
        text@ == reason_text_of(reason),
{
    match reason {
        FailureReason::Retrieval => "file retrieval failed",
        FailureReason::NoFiles => "no eligible files",
        FailureReason::Aborted => "aborted after repeated turn failures",
        FailureReason::Exhausted => "attempts exhausted",
        FailureReason::Crashed => "task ended without an outcome",
    }
}

/// The terminal outcome of one task.
#[derive(Clone, Copy, Debug, PartialEq, Eq, Structural)]
pub enum TaskOutcome {
    Success,
    Failure(FailureReason),
}

/// The outcome of a task whose conversation ended in `terminal`.
pub fn outcome_of(terminal: Terminal) -> (outcome: TaskOutcome)
    ensures
        outcome == match terminal {
            Terminal::Success => TaskOutcome::Success,
            Terminal::Exhausted => TaskOutcome::Failure(FailureReason::Exhausted),
            Terminal::Aborted => TaskOutcome::Failure(FailureReason::Aborted),
        },
{
    match terminal {
        Terminal::Success => TaskOutcome::Success,
        Terminal::Exhausted => TaskOutcome::Failure(FailureReason::Exhausted),
        Terminal::Aborted => TaskOutcome::Failure(FailureReason::Aborted),
    }
}

/// The outcome of a task whose file selection failed.
pub fn outcome_of_selection(error: SelectionError) -> (outcome: TaskOutcome)
    ensures
        outcome == TaskOutcome::Failure(FailureReason::NoFiles),
{
    match error {
        SelectionError::EmptyResult => TaskOutcome::Failure(FailureReason::NoFiles),
    }
}

/// The scheduler's bookkeeping for `total` work items under a concurrency
/// limit.
pub struct Scheduler {
    /// The most tasks that may run at once.
    pub limit: usize,
    /// Number of work items.
    pub total: usize,
    /// Index of the next pending item; the items before it were admitted.
    pub next: usize,
    /// The items that are running, in the order of their admission.
    pub running: Vec<usize>,
    /// The outcome of each item, once it has reported one.
    pub outcomes: Vec<Option<TaskOutcome>>,
}

/// Mathematical value of a [`Scheduler`].
pub struct SchedulerView {
    pub limit: nat,
    pub total: nat,
    pub next: nat,
    pub running: Seq<usize>,
    pub outcomes: Seq<Option<TaskOutcome>>,
}

impl View for Scheduler {
    type V = SchedulerView;

    open spec fn view(&self) -> SchedulerView {
        SchedulerView {
            limit: self.limit as nat,
            total: self.total as nat,
            next: self.next as nat,
            running: self.running@,
            outcomes: self.outcomes@,
        }
    }
}

impl SchedulerView {
    /// The invariant: never more running items than the limit allows; every
    /// running item was admitted and has no outcome yet; every admitted item
    /// that is not running has its outcome; no pending item has one.
    pub open spec fn wf(self) -> bool {
        &&& self.next <= self.total <= usize::MAX
        &&& self.outcomes.len() == self.total
        &&& self.running.len() <= self.limit
        &&& self.running.no_duplicates()
        &&& forall|k: int|
            0 <= k < self.running.len() ==> (#[trigger] self.running[k]) < self.next
        &&& forall|i: int|
            0 <= i < self.total ==> ((#[trigger] self.outcomes[i]) is Some <==> (i < self.next
                && !self.running.contains(i as usize)))
    }

    /// The state before anything was admitted.
    pub open spec fn initial(total: nat, limit: nat) -> SchedulerView {
        SchedulerView {
            limit,
            total,
            next: 0,
            running: Seq::empty(),
            outcomes: Seq::new(total, |i: int| None),
        }
    }

    /// Whether the next pending item can be admitted now.
    pub open spec fn can_admit(self) -> bool {
        self.running.len() < self.limit && self.next < self.total
    }

    /// The state after admitting the next pending item, where that is
    /// possible; the same state otherwise.
    pub open spec fn admitted(self) -> SchedulerView {
        if self.can_admit() {
            SchedulerView {
                next: self.next + 1,
                running: self.running.push(self.next as usize),
                ..self
            }
        } else {
            self
        }
    }

    /// The state after the running item `id` reported `outcome`; the same
    /// state where `id` is not running.
    pub open spec fn completed(self, id: usize, outcome: TaskOutcome) -> SchedulerView {
        if self.running.contains(id) {
            SchedulerView {
                running: self.running.remove(self.running.index_of(id)),
                outcomes: self.outcomes.update(id as int, Some(outcome)),
                ..self
            }
        } else {
            self
        }
    }

    /// All items were admitted and none is running.
    pub open spec fn done(self) -> bool {
        self.next == self.total && self.running.len() == 0
    }

    /// Number of admissions and completions still to come.
    pub open spec fn remaining_steps(self) -> int {
        2 * (self.total - self.next) + self.running.len()
    }
}

impl Scheduler {
    /// A scheduler for `total` work items of which at most `limit` run at
    /// once.
    pub fn new(total: usize, limit: usize) -> (s: Self)
        ensures
            s@ == SchedulerView::initial(total as nat, limit as nat),
            s@.wf(),
    {
        let mut outcomes: Vec<Option<TaskOutcome>> = Vec::new();
        let mut i: usize = 0;
        while i < total
            invariant
                i <= total,
                outcomes.len() == i,
                forall|k: int| 0 <= k < i ==> outcomes[k] == None::<TaskOutcome>,
            decreases total - i,
        {
            outcomes.push(None);
            i += 1;
        }
        let s = Scheduler { limit, total, next: 0, running: Vec::new(), outcomes };
        assert(s@.outcomes =~= SchedulerView::initial(total as nat, limit as nat).outcomes);
        assert(s@.running =~= Seq::empty());
        s
    }

    /// Admits the next pending item if the limit allows it and one is left,
    /// and returns its index.
    pub fn admit_next(&mut self) -> (admitted: Option<usize>)
        requires
            old(self)@.wf(),
        ensures
            final(self)@ == old(self)@.admitted(),
            final(self)@.wf(),
            admitted == (if old(self)@.can_admit() {
                Some(old(self).next)
            } else {
                None
            }),
    {
        if self.running.len() < self.limit && self.next < self.total {
            let id: usize = self.next;
            self.running.push(id);
            self.next = self.next + 1;
            proof {
                lemma_admit_keeps_invariant(old(self)@);
            }
            Some(id)
        } else {
            None
        }
    }

    /// Records the outcome of the running item `id` and frees its place.
    /// Returns whether `id` was running; if not, nothing changes.
    pub fn complete(&mut self, id: usize, outcome: TaskOutcome) -> (was_running: bool)
        requires
            old(self)@.wf(),
        ensures
            final(self)@ == old(self)@.completed(id, outcome),
            final(self)@.wf(),
            was_running == old(self)@.running.contains(id),
    {
        let mut k: usize = 0;
        while k < self.running.len()
            invariant
                k <= self.running.len(),
                *self == *old(self),
                old(self)@.wf(),
                forall|j: int| 0 <= j < k ==> self.running[j] != id,
            decreases self.running.len() - k,
        {
            if self.running[k] == id {
                proof {
                    assert(old(self)@.running[k as int] == id);
                    assert(old(self)@.running.contains(id));
                    let w = old(self)@.running.index_of(id);
                    assert(old(self)@.running[w] == id);
                    assert(w == k);
                    lemma_complete_keeps_invariant(old(self)@, id, outcome);
                }
                self.running.remove(k);
                self.outcomes.set(id, Some(outcome));
                return true;
            }
            k += 1;
        }
        proof {
            assert(!old(self)@.running.contains(id));
        }
        false
    }

    /// Whether every item has been admitted and has reported its outcome.
    pub fn is_done(&self) -> (b: bool)
        ensures
            b == self@.done(),
    {
        self.next == self.total && self.running.len() == 0
    }

    /// Number of tasks that are running.
    pub fn running_count(&self) -> (n: usize)
        ensures
            n == self@.running.len(),
    {
        self.running.len()
    }

    /// The outcome of item `id`, once it has reported one.
    pub fn outcome(&self, id: usize) -> (o: Option<TaskOutcome>)
        requires
            self@.wf(),
        ensures
            o == (if id < self.total {
                self@.outcomes[id as int]
            } else {
                None
            }),
    {
        if id < self.total {
            self.outcomes[id]
        } else {
            None
        }
    }
}

/// Scheduler budget, safety: admitting keeps the invariant, so the number of
/// running tasks stays within the limit.
pub proof fn lemma_admit_keeps_invariant(s: SchedulerView)
    requires
        s.wf(),
    ensures
        s.admitted().wf(),
        s.admitted().running.len() <= s.limit,
        s.admitted().outcomes == s.outcomes,
        s.can_admit() ==> s.admitted().remaining_steps() == s.remaining_steps() - 1,
{
    if s.can_admit() {
        let t = s.admitted();
        let id = s.next as usize;
        assert(!s.running.contains(id)) by {
            if s.running.contains(id) {
                let k = choose|k: int| 0 <= k < s.running.len() && s.running[k] == id;
                assert(s.running[k] < s.next);
            }
        }
        assert(t.running.no_duplicates());
        assert forall|i: int| 0 <= i < t.total implies ((#[trigger] t.outcomes[i]) is Some <==> (i
            < t.next && !t.running.contains(i as usize))) by {
            if i == s.next {
                assert(t.running[s.running.len() as int] == id);
            } else {
                if s.running.contains(i as usize) {
                    let k = choose|k: int| 0 <= k < s.running.len() && s.running[k] == i as usize;
                    assert(t.running[k] == i as usize);
                }
                if t.running.contains(i as usize) {
                    let k = choose|k: int| 0 <= k < t.running.len() && t.running[k] == i as usize;
                    assert(s.running[k] == i as usize);
                }
            }
        }
    }
}

/// Isolation: a completion keeps the invariant, frees exactly one place,
/// records the reported outcome for that item and leaves the outcome of
/// every other item, the other running items and the limit as they were.
pub proof fn lemma_complete_keeps_invariant(s: SchedulerView, id: usize, outcome: TaskOutcome)
    requires
        s.wf(),
    ensures
        s.completed(id, outcome).wf(),
        s.completed(id, outcome).limit == s.limit,
        forall|i: int|
            0 <= i < s.total && i != id ==> #[trigger] s.completed(id, outcome).outcomes[i]
                == s.outcomes[i],
        forall|other: usize|
            other != id ==> (#[trigger] s.completed(id, outcome).running.contains(other)
                <==> s.running.contains(other)),
        s.running.contains(id) ==> {
            &&& s.completed(id, outcome).outcomes[id as int] == Some(outcome)
            &&& !s.completed(id, outcome).running.contains(id)
            &&& s.completed(id, outcome).running.len() == s.running.len() - 1
            &&& s.completed(id, outcome).remaining_steps() == s.remaining_steps() - 1
        },
{
    let t = s.completed(id, outcome);
    if s.running.contains(id) {
        let w = s.running.index_of(id);
        assert(0 <= w < s.running.len() && s.running[w] == id);
        assert(id < s.next);
        assert forall|a: int| 0 <= a < t.running.len() implies #[trigger] t.running[a]
            == s.running[if a < w {
            a
        } else {
            a + 1
        }] by {}
        assert(t.running.no_duplicates());
        assert(!t.running.contains(id)) by {
            if t.running.contains(id) {
                let a = choose|a: int| 0 <= a < t.running.len() && t.running[a] == id;
                assert(s.running[if a < w {
                    a
                } else {
                    a + 1
                }] == id);
            }
        }
        assert forall|other: usize| other != id implies (#[trigger] t.running.contains(other)
            <==> s.running.contains(other)) by {
            if s.running.contains(other) {
                let k = choose|k: int| 0 <= k < s.running.len() && s.running[k] == other;
                let a = if k < w {
                    k
                } else {
                    k - 1
                };
                assert(t.running[a] == other);
            }
            if t.running.contains(other) {
                let a = choose|a: int| 0 <= a < t.running.len() && t.running[a] == other;
                assert(s.running[if a < w {
                    a
                } else {
                    a + 1
                }] == other);
            }
        }
        assert forall|i: int| 0 <= i < t.total implies ((#[trigger] t.outcomes[i]) is Some <==> (i
            < t.next && !t.running.contains(i as usize))) by {
            if i != id {
                assert(t.running.contains(i as usize) <==> s.running.contains(i as usize));
            }
        }
    }
}

/// Scheduler budget, progress: with a limit of at least one, a scheduler
/// that is not done can always take a step (start the next item, or accept
/// the outcome of a running one), every step lowers the number of steps
/// still to come by one, and a scheduler that is done holds an outcome for
/// every item.
pub proof fn lemma_progress(s: SchedulerView)
    requires
        s.wf(),
        s.limit >= 1,
    ensures
        s.remaining_steps() >= 0,
        s.done() <==> s.remaining_steps() == 0,
        !s.done() ==> s.can_admit() || s.running.len() > 0,
        s.done() ==> forall|i: int| 0 <= i < s.total ==> (#[trigger] s.outcomes[i]) is Some,
{
    if s.done() {
        assert forall|i: int| 0 <= i < s.total implies (#[trigger] s.outcomes[i]) is Some by {
            assert(!s.running.contains(i as usize));
        }
    }
}

/// One step of the scheduler.
pub enum SchedulerEvent {
    /// The next pending item is started, if the limit allows it.
    Start,
    /// The item reports its outcome.
    Report(usize, TaskOutcome),
}

impl SchedulerView {
    /// The state after one step.
    pub open spec fn after(self, event: SchedulerEvent) -> SchedulerView {
        match event {
            SchedulerEvent::Start => self.admitted(),
            SchedulerEvent::Report(id, outcome) => self.completed(id, outcome),
        }
    }

    /// The state after a sequence of steps.
    pub open spec fn run(self, events: Seq<SchedulerEvent>) -> SchedulerView
        decreases events.len(),
    {
        if events.len() == 0 {
            self
        } else {
            self.run(events.drop_last()).after(events.last())
        }
    }
}

/// Scheduler budget over a whole execution: whatever steps are taken, in
/// whatever order, the number of running tasks never exceeds the limit, and
/// neither the limit nor the number of items changes.
pub proof fn lemma_never_over_budget(total: nat, limit: nat, events: Seq<SchedulerEvent>)
    requires
        total <= usize::MAX,
    ensures
        SchedulerView::initial(total, limit).run(events).wf(),
        SchedulerView::initial(total, limit).run(events).running.len() <= limit,
        SchedulerView::initial(total, limit).run(events).limit == limit,
        SchedulerView::initial(total, limit).run(events).total == total,
    decreases events.len(),
{
    let s = SchedulerView::initial(total, limit);
    if events.len() > 0 {
        lemma_never_over_budget(total, limit, events.drop_last());
        let before = s.run(events.drop_last());
        match events.last() {
            SchedulerEvent::Start => {
                lemma_admit_keeps_invariant(before);
            },
            SchedulerEvent::Report(id, outcome) => {
                lemma_complete_keeps_invariant(before, id, outcome);
            },
        }
    }
}

/// Number of items whose outcome is `Success`.
pub open spec fn count_succeeded(outcomes: Seq<Option<TaskOutcome>>) -> nat
    decreases outcomes.len(),
{
    if outcomes.len() == 0 {
        0
    } else {
        count_succeeded(outcomes.drop_last()) + if outcomes.last() == Some(TaskOutcome::Success) {
            1nat
        } else {
            0nat
        }
    }
}

/// Number of items whose outcome is a failure.
pub open spec fn count_failed(outcomes: Seq<Option<TaskOutcome>>) -> nat
    decreases outcomes.len(),
{
    if outcomes.len() == 0 {
        0
    } else {
        count_failed(outcomes.drop_last()) + if outcomes.last() is Some
            && outcomes.last() != Some(TaskOutcome::Success) {
            1nat
        } else {
            0nat
        }
    }
}

impl Scheduler {
    /// The aggregate counts: how many items succeeded and how many failed
    /// so far.
    pub fn counts(&self) -> (r: (usize, usize))
        ensures
            r.0 == count_succeeded(self@.outcomes),
            r.1 == count_failed(self@.outcomes),
    {
        let mut succeeded: usize = 0;
        let mut failed: usize = 0;
        let mut i: usize = 0;
        proof {
            assert(self.outcomes@.take(0).len() == 0);
        }
        while i < self.outcomes.len()
            invariant
                i <= self.outcomes.len(),
                succeeded + failed <= i,
                succeeded == count_succeeded(self.outcomes@.take(i as int)),
                failed == count_failed(self.outcomes@.take(i as int)),
            decreases self.outcomes.len() - i,
        {
            proof {
                let now = self.outcomes@.take(i + 1);
                assert(now.drop_last() =~= self.outcomes@.take(i as int));
                assert(now.last() == self.outcomes@[i as int]);
            }
            match self.outcomes[i] {
                Some(TaskOutcome::Success) => {
                    succeeded += 1;
                },
                Some(TaskOutcome::Failure(_)) => {
                    failed += 1;
                },
                None => {},
            }
            i += 1;
        }
        proof {
            assert(self.outcomes@.take(i as int) =~= self.outcomes@);
        }
        (succeeded, failed)
    }
}

} // verus!
