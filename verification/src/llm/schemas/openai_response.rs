//! Records describing endpoints, chat messages and completion responses.

use vstd::prelude::*;

verus! {

/// A completion-service destination: display name, credential, base address.
#[derive(Clone, Debug)]
pub struct Endpoint {
    pub name: String,
    pub key: String,
    pub endpoint: String,
}

/// One entry of a conversation history.
#[derive(Clone, Debug)]
pub struct ChatMessage {
    pub role: String,
    pub content: String,
}

/// Mathematical value of a [`ChatMessage`].
pub struct MessageView {
    pub role: Seq<char>,
    pub content: Seq<char>,
}

impl View for ChatMessage {
    type V = MessageView;

    open spec fn view(&self) -> MessageView {
        MessageView { role: self.role@, content: self.content@ }
    }
}

/// The views of a history, entry by entry.
pub open spec fn history_view(messages: Seq<ChatMessage>) -> Seq<MessageView> {
    Seq::new(messages.len(), |i: int| messages[i]@)
}

/// An independent copy of a history with the same view.
pub fn copy_history(messages: &Vec<ChatMessage>) -> (out: Vec<ChatMessage>)
    ensures
        history_view(out@) == history_view(messages@),
{
    let mut out: Vec<ChatMessage> = Vec::new();
    let mut i: usize = 0;
    while i < messages.len()
        invariant
            i <= messages.len(),
            out.len() == i,
            forall|j: int| 0 <= j < i ==> out[j]@ == messages[j]@,
        decreases messages.len() - i,
    {
        out.push(ChatMessage { role: messages[i].role.clone(), content: messages[i].content.clone() });
        i += 1;
    }
    assert(history_view(out@) =~= history_view(messages@));
    out
}

/// A completion response.
#[derive(Clone, Debug)]
pub struct OpenAIResponse {
    pub id: String,
    pub object: String,
    pub created: u64,
    pub model: String,
    pub choices: Vec<OpenAIChoice>,
    pub usage: OpenAIUsage,
}

/// One alternative of a completion response.
#[derive(Clone, Debug)]
pub struct OpenAIChoice {
    pub index: usize,
    pub message: ChatMessage,
    pub finish_reason: String,
}

/// Token accounting of a completion response.
#[derive(Clone, Debug)]
pub struct OpenAIUsage {
    pub prompt_tokens: usize,
    pub completion_tokens: usize,
    pub total_tokens: usize,
}

/// A persisted turn: the history snapshot of one successful exchange.
#[derive(Clone, Debug)]
pub struct ResponseData {
    pub repo: String,
    pub debate_type: String,
    pub turn: usize,
    pub timestamp: String,
    pub endpoint: String,
    pub messages: Vec<ChatMessage>,
    pub tokens_used: usize,
}

/// Mathematical value of a [`ResponseData`].
pub struct ResponseView {
    pub repo: Seq<char>,
    pub debate_type: Seq<char>,
    pub turn: nat,
    pub timestamp: Seq<char>,
    pub endpoint: Seq<char>,
    pub messages: Seq<MessageView>,
    pub tokens_used: nat,
}

impl View for ResponseData {
    type V = ResponseView;

    open spec fn view(&self) -> ResponseView {
        ResponseView {
            repo: self.repo@,
            debate_type: self.debate_type@,
            turn: self.turn as nat,
            timestamp: self.timestamp@,
            endpoint: self.endpoint@,
            messages: history_view(self.messages@),
            tokens_used: self.tokens_used as nat,
        }
    }
}

} // verus!
