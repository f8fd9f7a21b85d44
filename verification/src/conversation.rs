//! The per-task conversation state machine.
//!
//! A conversation is created in `Initializing`, waits in `AwaitingResponse`
//! while a remote call for the current turn is in flight, passes through
//! `Advancing` after each successful exchange and ends in one of the
//! `Terminated` states, which nothing leaves.

use crate::llm::schemas::github_response::RepoInfo;
use crate::llm::schemas::openai_response::{copy_history, history_view, ChatMessage, MessageView};
use crate::questions::{get_next_question, DeepQuestions};
use vstd::prelude::*;

verus! {

/// Number of successful exchanges after which a conversation is complete.
pub const MAX_TURNS: usize = 20;

/// Number of turn failures in a row that aborts a conversation.
pub const MAX_CONSECUTIVE_ERRORS: usize = 3;

/// How a conversation ended.
#[derive(Clone, Copy, Debug, PartialEq, Eq, Structural)]
pub enum Terminal {
    Success,
    Exhausted,
    Aborted,
}

/// Where a conversation stands.
#[derive(Clone, Copy, Debug, PartialEq, Eq, Structural)]
pub enum Phase {
    Initializing,
    AwaitingResponse,
    Advancing,
    Terminated(Terminal),
}

/// What the driver of a conversation has to do next.
#[derive(Clone, Copy, Debug, PartialEq, Eq, Structural)]
pub enum Action {
    /// Build the prompts and call `begin`.
    Initialize,
    /// Send the history to the completion service; report with
    /// `accept_reply` or `fail_turn`.
    CallRemote,
    /// Persist the snapshot of the current turn, then call `advance`.
    PersistAndAdvance,
    /// Nothing more: the conversation has ended.
    Stop(Terminal),
}

/// The state of one conversation. Only its owning task touches it.
pub struct ConversationState {
    pub phase: Phase,
    pub turn: usize,
    pub consecutive_errors: usize,
    pub messages: Vec<ChatMessage>,
}

/// Mathematical value of a [`ConversationState`].
pub struct ConversationView {
    pub phase: Phase,
    pub turn: nat,
    pub consecutive_errors: nat,
    pub history: Seq<MessageView>,
}

impl View for ConversationState {
    type V = ConversationView;

    open spec fn view(&self) -> ConversationView {
        ConversationView {
            phase: self.phase,
            turn: self.turn as nat,
            consecutive_errors: self.consecutive_errors as nat,
            history: history_view(self.messages@),
        }
    }
}

/// A history entry with the given role.
pub open spec fn message(role: Seq<char>, content: Seq<char>) -> MessageView {
    MessageView { role, content }
}

impl ConversationView {
    /// The invariant of the machine: the turn number stays within
    /// `1..=MAX_TURNS + 1`, the failure count below its limit while the
    /// conversation is live, and the history holds two entries per started
    /// turn plus the reply being processed.
    pub open spec fn wf(self) -> bool {
        match self.phase {
            Phase::Initializing => self.turn == 1 && self.consecutive_errors == 0
                && self.history.len() == 0,
            Phase::AwaitingResponse => 1 <= self.turn <= MAX_TURNS && self.consecutive_errors
                < MAX_CONSECUTIVE_ERRORS && self.history.len() == 2 * self.turn,
            Phase::Advancing => 1 <= self.turn <= MAX_TURNS && self.consecutive_errors
                < MAX_CONSECUTIVE_ERRORS && self.history.len() == 2 * self.turn + 1,
            Phase::Terminated(Terminal::Success) => self.turn == MAX_TURNS + 1
                && self.consecutive_errors == 0 && self.history.len() == 2 * self.turn,
            Phase::Terminated(Terminal::Aborted) => 1 <= self.turn <= MAX_TURNS
                && self.consecutive_errors == MAX_CONSECUTIVE_ERRORS && self.history.len() == 2
                * self.turn,
            Phase::Terminated(Terminal::Exhausted) => 1 <= self.turn <= MAX_TURNS + 1
                && self.consecutive_errors <= MAX_CONSECUTIVE_ERRORS,
        }
    }

    /// The state of a conversation that has not begun.
    pub open spec fn initial() -> ConversationView {
        ConversationView {
            phase: Phase::Initializing,
            turn: 1,
            consecutive_errors: 0,
            history: Seq::empty(),
        }
    }

    /// `Initializing → AwaitingResponse`: the history starts with the system
    /// prompt and the opening user message.
    pub open spec fn begun(self, system_prompt: Seq<char>, opening: Seq<char>) -> ConversationView {
        if self.phase == Phase::Initializing {
            ConversationView {
                phase: Phase::AwaitingResponse,
                history: seq![message("system"@, system_prompt), message("user"@, opening)],
                ..self
            }
        } else {
            self
        }
    }

    /// `AwaitingResponse → Advancing`: the reply joins the history.
    pub open spec fn replied(self, reply: Seq<char>) -> ConversationView {
        if self.phase == Phase::AwaitingResponse {
            ConversationView {
                phase: Phase::Advancing,
                history: self.history.push(message("assistant"@, reply)),
                ..self
            }
        } else {
            self
        }
    }

    /// `Advancing → AwaitingResponse | Terminated(Success)`: the next
    /// question joins the history, the turn number grows by one and the
    /// failure count starts over.
    pub open spec fn advanced(self, question: Seq<char>) -> ConversationView {
        if self.phase == Phase::Advancing {
            ConversationView {
                phase: if self.turn + 1 > MAX_TURNS {
                    Phase::Terminated(Terminal::Success)
                } else {
                    Phase::AwaitingResponse
                },
                turn: self.turn + 1,
                consecutive_errors: 0,
                history: self.history.push(message("user"@, question)),
            }
        } else {
            self
        }
    }

    /// A turn failure in `AwaitingResponse`: the failure count grows by one;
    /// at the limit the conversation is aborted, otherwise the same turn is
    /// attempted again. History and turn number stay as they are.
    pub open spec fn failed(self) -> ConversationView {
        if self.phase == Phase::AwaitingResponse {
            ConversationView {
                phase: if self.consecutive_errors + 1 >= MAX_CONSECUTIVE_ERRORS {
                    Phase::Terminated(Terminal::Aborted)
                } else {
                    Phase::AwaitingResponse
                },
                consecutive_errors: self.consecutive_errors + 1,
                ..self
            }
        } else {
            self
        }
    }

    /// What the driver has to do in this state.
    pub open spec fn action(self) -> Action {
        match self.phase {
            Phase::Initializing => Action::Initialize,
            Phase::AwaitingResponse => Action::CallRemote,
            Phase::Advancing => Action::PersistAndAdvance,
            Phase::Terminated(t) => Action::Stop(t),
        }
    }
}

impl ConversationState {
    /// A conversation that has not begun: turn 1, no failures, no history.
    pub fn new() -> (s: Self)
        ensures
            s@ == ConversationView::initial(),
            s@.wf(),
    {
        let s = ConversationState {
            phase: Phase::Initializing,
            turn: 1,
            consecutive_errors: 0,
            messages: Vec::new(),
        };
        assert(s@.history =~= Seq::empty());
        s
    }

    /// Starts the conversation with its system prompt and opening message.
    /// Outside `Initializing` nothing changes.
    pub fn begin(&mut self, system_prompt: String, opening: String)
        requires
            old(self)@.wf(),
        ensures
            final(self)@ == old(self)@.begun(system_prompt@, opening@),
            final(self)@.wf(),
    {
        if self.phase == Phase::Initializing {
            self.messages.push(ChatMessage { role: String::from_str("system"), content: system_prompt });
            self.messages.push(ChatMessage { role: String::from_str("user"), content: opening });
            self.phase = Phase::AwaitingResponse;
            assert(self@.history =~= old(self)@.begun(system_prompt@, opening@).history);
        }
    }

    /// Records the reply to the current turn. Outside `AwaitingResponse`
    /// nothing changes.
    pub fn accept_reply(&mut self, reply: String)
        requires
            old(self)@.wf(),
        ensures
            final(self)@ == old(self)@.replied(reply@),
            final(self)@.wf(),
    {
        if self.phase == Phase::AwaitingResponse {
            self.messages.push(ChatMessage { role: String::from_str("assistant"), content: reply });
            self.phase = Phase::Advancing;
            assert(self@.history =~= old(self)@.replied(reply@).history);
        }
    }

    /// The turn number and a copy of the history, as they are to be
    /// persisted for the current turn.
    pub fn snapshot(&self) -> (r: (usize, Vec<ChatMessage>))
        ensures
            r.0 == self.turn,
            history_view(r.1@) == self@.history,
    {
        (self.turn, copy_history(&self.messages))
    }

    /// Completes the current turn: appends the next question and moves on to
    /// the next turn, or ends in `Terminated(Success)` after the last one.
    /// Outside `Advancing` nothing changes.
    pub fn advance(&mut self, repo_info: &RepoInfo, deep_questions: &DeepQuestions)
        requires
            old(self)@.wf(),
        ensures
            final(self)@ == old(self)@.advanced(
                deep_questions.next_question(repo_info.owner@, repo_info.repo@, old(self)@.turn),
            ),
            final(self)@.wf(),
    {
        if self.phase == Phase::Advancing {
            let question = get_next_question(repo_info, deep_questions, self.turn);
            self.messages.push(ChatMessage { role: String::from_str("user"), content: question });
            self.turn = self.turn + 1;
            self.consecutive_errors = 0;
            if self.turn > MAX_TURNS {
                self.phase = Phase::Terminated(Terminal::Success);
            } else {
                self.phase = Phase::AwaitingResponse;
            }
            assert(self@.history =~= old(self)@.advanced(question@).history);
        }
    }

    /// Records a failure of the current turn. Outside `AwaitingResponse`
    /// nothing changes.
    pub fn fail_turn(&mut self)
        requires
            old(self)@.wf(),
        ensures
            final(self)@ == old(self)@.failed(),
            final(self)@.wf(),
    {
        if self.phase == Phase::AwaitingResponse {
            self.consecutive_errors = self.consecutive_errors + 1;
            if self.consecutive_errors >= MAX_CONSECUTIVE_ERRORS {
                self.phase = Phase::Terminated(Terminal::Aborted);
            }
        }
    }

    /// What the driver has to do next.
    pub fn next_action(&self) -> (a: Action)
        ensures
            a == self@.action(),
    {
        match self.phase {
            Phase::Initializing => Action::Initialize,
            Phase::AwaitingResponse => Action::CallRemote,
            Phase::Advancing => Action::PersistAndAdvance,
            Phase::Terminated(t) => Action::Stop(t),
        }
    }

    /// Whether the conversation has ended.
    pub fn is_terminated(&self) -> (b: bool)
        ensures
            b == (self@.phase is Terminated),
    {
        match self.phase {
            Phase::Terminated(_) => true,
            _ => false,
        }
    }
}

/// The outcome of one attempt at the current turn, as the state machine sees
/// it: a reply together with the question that follows it, or a failure.
pub enum Exchange {
    Reply { reply: Seq<char>, question: Seq<char> },
    Failure,
}

impl ConversationView {
    /// The state after one whole exchange.
    pub open spec fn after(self, e: Exchange) -> ConversationView {
        match e {
            Exchange::Reply { reply, question } => self.replied(reply).advanced(question),
            Exchange::Failure => self.failed(),
        }
    }

    /// The state after a sequence of exchanges.
    pub open spec fn run(self, trace: Seq<Exchange>) -> ConversationView
        decreases trace.len(),
    {
        if trace.len() == 0 {
            self
        } else {
            self.run(trace.drop_last()).after(trace.last())
        }
    }

    /// The turn numbers persisted during a sequence of exchanges, in the
    /// order of persisting: one per reply that arrived while a call was
    /// awaited.
    pub open spec fn persisted_turns(self, trace: Seq<Exchange>) -> Seq<nat>
        decreases trace.len(),
    {
        if trace.len() == 0 {
            Seq::empty()
        } else {
            let before = self.run(trace.drop_last());
            let earlier = self.persisted_turns(trace.drop_last());
            if trace.last() is Reply && before.phase == Phase::AwaitingResponse {
                earlier.push(before.turn)
            } else {
                earlier
            }
        }
    }
}

/// Every transition keeps the invariant and never shortens the history.
pub proof fn lemma_transitions_keep_invariant(
    v: ConversationView,
    system_prompt: Seq<char>,
    opening: Seq<char>,
    reply: Seq<char>,
    question: Seq<char>,
)
    requires
        v.wf(),
    ensures
        v.begun(system_prompt, opening).wf(),
        v.replied(reply).wf(),
        v.advanced(question).wf(),
        v.failed().wf(),
        v.begun(system_prompt, opening).history.len() >= v.history.len(),
        v.replied(reply).history.len() >= v.history.len(),
        v.advanced(question).history.len() >= v.history.len(),
        v.failed().history == v.history,
        v.failed().turn == v.turn,
{
}

/// Terminal states are final: no transition leaves or changes one, and the
/// driver is told to stop.
pub proof fn lemma_terminal_is_final(
    v: ConversationView,
    system_prompt: Seq<char>,
    opening: Seq<char>,
    reply: Seq<char>,
    question: Seq<char>,
)
    requires
        v.phase is Terminated,
    ensures
        v.begun(system_prompt, opening) == v,
        v.replied(reply) == v,
        v.advanced(question) == v,
        v.failed() == v,
        v.action() == Action::Stop(v.phase->Terminated_0),
{
}

/// Three turn failures in a row abort a live conversation, whatever its
/// failure count was before, and from then on the driver is told to stop.
pub proof fn lemma_three_failures_abort(v: ConversationView)
    requires
        v.wf(),
        v.phase == Phase::AwaitingResponse,
    ensures
        v.failed().failed().failed().phase == Phase::Terminated(Terminal::Aborted),
        v.failed().failed().failed().action() == Action::Stop(Terminal::Aborted),
        v.failed().failed().failed().history == v.history,
        v.failed().failed().failed().turn == v.turn,
{
}

/// A success resets the failure count: after a reply, three more failures
/// are needed to abort.
pub proof fn lemma_success_resets_failures(v: ConversationView, reply: Seq<char>, question: Seq<char>)
    requires
        v.wf(),
        v.phase == Phase::AwaitingResponse,
        v.turn < MAX_TURNS,
    ensures
        v.replied(reply).advanced(question).consecutive_errors == 0,
        v.replied(reply).advanced(question).failed().failed().phase == Phase::AwaitingResponse,
{
}

/// Turn monotonicity: whatever exchanges happen, the persisted turn numbers
/// are consecutive, starting at the turn the conversation was at, and the
/// turn number has grown by exactly their count.
pub proof fn lemma_persisted_turns_consecutive(v: ConversationView, trace: Seq<Exchange>)
    requires
        v.wf(),
        v.phase == Phase::AwaitingResponse,
    ensures
        v.run(trace).wf(),
        v.run(trace).phase == Phase::AwaitingResponse || v.run(trace).phase is Terminated,
        v.run(trace).turn == v.turn + v.persisted_turns(trace).len(),
        v.persisted_turns(trace) == Seq::new(
            v.persisted_turns(trace).len(),
            |i: int| (v.turn + i) as nat,
        ),
    decreases trace.len(),
{
    if trace.len() > 0 {
        lemma_persisted_turns_consecutive(v, trace.drop_last());
        let earlier = v.persisted_turns(trace.drop_last());
        let now = v.persisted_turns(trace);
        assert(now =~= Seq::new(now.len(), |i: int| (v.turn + i) as nat));
    } else {
        assert(v.persisted_turns(trace) =~= Seq::new(0, |i: int| (v.turn + i) as nat));
    }
}

/// A conversation that began at turn 1 and ended in `Success` persisted
/// exactly the turns `1, 2, …, MAX_TURNS`.
pub proof fn lemma_completed_task_persists_all_turns(
    system_prompt: Seq<char>,
    opening: Seq<char>,
    trace: Seq<Exchange>,
)
    requires
        ConversationView::initial().begun(system_prompt, opening).run(trace).phase
            == Phase::Terminated(Terminal::Success),
    ensures
        ConversationView::initial().begun(system_prompt, opening).persisted_turns(trace)
            == Seq::new(MAX_TURNS as nat, |i: int| (1 + i) as nat),
{
    let v = ConversationView::initial().begun(system_prompt, opening);
    lemma_persisted_turns_consecutive(v, trace);
}

/// Append-only history: at every point of a sequence of exchanges the
/// history extends the history of every earlier point, so each persisted
/// snapshot extends the one persisted before it; the turn number never
/// goes back.
pub proof fn lemma_history_append_only(v: ConversationView, trace: Seq<Exchange>, k: int)
    requires
        0 <= k <= trace.len(),
    ensures
        v.run(trace.take(k)).history.is_prefix_of(v.run(trace).history),
        v.run(trace.take(k)).turn <= v.run(trace).turn,
    decreases trace.len(),
{
    if k == trace.len() {
        assert(trace.take(k) =~= trace);
    } else {
        let shorter = trace.drop_last();
        lemma_history_append_only(v, shorter, k);
        assert(shorter.take(k) =~= trace.take(k));
        let before = v.run(shorter);
        let after = before.after(trace.last());
        assert(after == v.run(trace));
        assert(before.history.is_prefix_of(after.history));
    }
}

} // verus!
