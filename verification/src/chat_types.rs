//! Data model of a conversation: roles, turns, and the chunks a backend
//! streams back while it generates a response.

use vstd::prelude::*;

verus! {

/// The author of a turn in the conversation.
#[derive(Clone, Copy, Debug, PartialEq, Eq, Structural)]
pub enum Role {
    System,
    User,
    Assistant,
}

impl Default for Role {
    fn default() -> (r: Self)
        ensures
            r == Role::User,
    {
        Role::User
    }
}

/// One committed turn of the conversation.  A value of this type only ever
/// enters the log as a complete value; no partially streamed text is visible
/// through it.
#[derive(Debug)]
pub struct ChatCompletionRequestMessage {
    /// The role of the author of this message.
    pub role: Role,
    /// The contents of the message.
    pub content: String,
    /// The name of the user in a multi-user chat.
    pub name: Option<String>,
}

/// The mathematical value of a turn: its role and the character sequences of
/// its texts.
pub ghost struct TurnView {
    pub role: Role,
    pub content: Seq<char>,
    pub name: Option<Seq<char>>,
}

impl View for ChatCompletionRequestMessage {
    type V = TurnView;

    open spec fn view(&self) -> TurnView {
        TurnView {
            role: self.role,
            content: self.content@,
            name: match self.name {
                Some(n) => Some(n@),
                None => None,
            },
        }
    }
}

impl Clone for ChatCompletionRequestMessage {
    fn clone(&self) -> (r: Self)
        ensures
            r == *self,
    {
        ChatCompletionRequestMessage {
            role: self.role,
            content: self.content.clone(),
            name: match &self.name {
                Some(n) => Some(n.clone()),
                None => None,
            },
        }
    }
}

impl ChatCompletionRequestMessage {
    /// A turn carrying only a role and a text, as the session creates them.
    pub fn new(role: Role, content: String) -> (r: Self)
        ensures
            r@ == (TurnView { role, content: content@, name: None }),
    {
        ChatCompletionRequestMessage { role, content, name: None }
    }
}

/// Token accounting reported by a backend.
#[derive(Clone, Copy, Debug, PartialEq, Eq, Structural)]
pub struct ModelUsage {
    pub prompt_tokens: u32,
    pub completion_tokens: u32,
    pub total_tokens: u32,
}

/// The text delta of one streamed choice.
#[derive(Debug)]
pub struct ChatCompletionDelta {
    pub content: Option<String>,
    pub role: Option<Role>,
}

pub ghost struct DeltaView {
    pub content: Option<Seq<char>>,
    pub role: Option<Role>,
}

impl View for ChatCompletionDelta {
    type V = DeltaView;

    open spec fn view(&self) -> DeltaView {
        DeltaView {
            content: match self.content {
                Some(c) => Some(c@),
                None => None,
            },
            role: self.role,
        }
    }
}

/// One streamed choice: a delta plus its index and an optional finish reason.
#[derive(Debug)]
pub struct ChatCompletionChoice {
    pub index: u32,
    pub delta: ChatCompletionDelta,
    pub finish_reason: Option<String>,
}

pub ghost struct ChoiceView {
    pub index: u32,
    pub delta: DeltaView,
    pub finish_reason: Option<Seq<char>>,
}

impl View for ChatCompletionChoice {
    type V = ChoiceView;

    open spec fn view(&self) -> ChoiceView {
        ChoiceView {
            index: self.index,
            delta: self.delta@,
            finish_reason: match self.finish_reason {
                Some(f) => Some(f@),
                None => None,
            },
        }
    }
}

/// One incremental unit of a streamed response.  Zero or more of these
/// precede the end of the stream.
#[derive(Debug)]
pub struct ChatCompletionChunk {
    pub id: Option<String>,
    pub object: String,
    pub created: u32,
    pub model: String,
    pub choices: Vec<ChatCompletionChoice>,
    pub usage: Option<ModelUsage>,
}

pub ghost struct ChunkView {
    pub id: Option<Seq<char>>,
    pub object: Seq<char>,
    pub created: u32,
    pub model: Seq<char>,
    pub choices: Seq<ChoiceView>,
    pub usage: Option<ModelUsage>,
}

impl View for ChatCompletionChunk {
    type V = ChunkView;

    open spec fn view(&self) -> ChunkView {
        ChunkView {
            id: match self.id {
                Some(i) => Some(i@),
                None => None,
            },
            object: self.object@,
            created: self.created,
            model: self.model@,
            choices: Seq::new(self.choices@.len(), |i: int| self.choices@[i]@),
            usage: self.usage,
        }
    }
}

/// The text that a sequence of streamed choices contributes, in order:
/// the concatenation of every present delta text.
pub open spec fn choices_text(choices: Seq<ChoiceView>) -> Seq<char>
    decreases choices.len(),
{
    if choices.len() == 0 {
        Seq::empty()
    } else {
        choices_text(choices.drop_last()) + match choices.last().delta.content {
            Some(c) => c,
            None => Seq::empty(),
        }
    }
}

/// The text that one streamed chunk contributes.
pub open spec fn chunk_text(c: ChunkView) -> Seq<char> {
    choices_text(c.choices)
}

/// A response chunk in a coarser shape: choices that each carry a whole
/// streamed message delta.
pub struct StreamResponse {
    pub choices: Vec<ChatChoiceDelta>,
}

pub struct ChatChoiceDelta {
    pub delta: ChatCompletionResponseStreamMessage,
}

pub struct ChatCompletionResponseStreamMessage {
    pub content: Option<String>,
    pub role: Option<Role>,
}

/// An ordered snapshot of the conversation handed to a backend.
#[derive(Debug)]
pub struct ChatModelRequest {
    pub messages: Vec<ChatCompletionRequestMessage>,
}

/// The mathematical value of a sequence of turns.
pub open spec fn turns_view(msgs: Seq<ChatCompletionRequestMessage>) -> Seq<TurnView> {
    Seq::new(msgs.len(), |i: int| msgs[i]@)
}

} // verus!
