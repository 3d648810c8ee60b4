//! One entry of a conversation.

use vstd::prelude::*;

verus! {

/// Who spoke a message.
#[derive(Debug, Clone, Copy, PartialEq, Eq, Structural)]
pub enum Role {
    /// Instructions that precede the conversation.
    System,
    /// The person at the keyboard.
    User,
    /// The model.
    Assistant,
}

impl Role {
    /// The name of the role in the inference service's message format.
    pub open spec fn wire_name(self) -> Seq<char> {
        match self {
            Role::System => "system"@,
            Role::User => "user"@,
            Role::Assistant => "assistant"@,
        }
    }

    /// The lower-case name of the role.
    pub fn as_str(&self) -> (text: &'static str)
        ensures
            text@ == self.wire_name(),
    {
        match self {
            Role::System => "system",
            Role::User => "user",
            Role::Assistant => "assistant",
        }
    }
}

/// What a message is, apart from how its text is stored.
pub struct MessageView {
    pub role: Role,
    pub content: Seq<char>,
}

/// A message of the conversation. It is not changed once made.
#[derive(Debug)]
pub struct ChatMessage {
    pub role: Role,
    pub content: String,
}

impl View for ChatMessage {
    type V = MessageView;

    open spec fn view(&self) -> MessageView {
        MessageView { role: self.role, content: self.content@ }
    }
}

impl Clone for ChatMessage {
    fn clone(&self) -> (copy: ChatMessage)
        ensures
            copy@ == self@,
    {
        ChatMessage { role: self.role, content: self.content.clone() }
    }
}

impl ChatMessage {
    /// A message by `role` that says `content`.
    pub fn new(role: Role, content: String) -> (message: ChatMessage)
        ensures
            message@ == (MessageView { role, content: content@ }),
    {
        ChatMessage { role, content }
    }
}

/// The messages of `entries`, each by its view.
pub open spec fn views_of(entries: Seq<ChatMessage>) -> Seq<MessageView> {
    entries.map_values(|message: ChatMessage| message@)
}

} // verus!
