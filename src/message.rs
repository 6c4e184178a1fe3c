//! Role-tagged chat messages.
use vstd::prelude::*;

verus! {

/// The speaker tag of a chat message.
#[derive(Clone, Copy, Debug, PartialEq, Eq, Structural)]
pub enum Role {
    System,
    User,
    Assistant,
}

/// The lowercase name under which a role is rendered.
pub open spec fn role_name(role: Role) -> Seq<char> {
    match role {
        Role::System => "system"@,
        Role::User => "user"@,
        Role::Assistant => "assistant"@,
    }
}

impl Role {
    /// Renders the role as its lowercase name.
    pub fn to_string(&self) -> (r: String)
        ensures
            r@ == role_name(*self),
    {
        match self {
            Role::System => "system".to_owned(),
            Role::User => "user".to_owned(),
            Role::Assistant => "assistant".to_owned(),
        }
    }
}

/// A message as the model sees it: a role and a text.
pub ghost struct MessageView {
    pub role: Role,
    pub content: Seq<char>,
}

/// A message in a chat.
#[derive(Clone, Debug)]
pub struct ChatMessage {
    pub role: Role,
    pub content: String,
}

impl View for ChatMessage {
    type V = MessageView;

    open spec fn view(&self) -> MessageView {
        MessageView { role: self.role, content: self.content@ }
    }
}

/// The views of a sequence of messages.
pub open spec fn messages_view(msgs: Seq<ChatMessage>) -> Seq<MessageView> {
    msgs.map_values(|m: ChatMessage| m@)
}

impl ChatMessage {
    /// A message with the given role and text.
    pub fn new(role: Role, content: &str) -> (r: ChatMessage)
        ensures
            r@ == (MessageView { role, content: content@ }),
    {
        ChatMessage { role, content: content.to_owned() }
    }
}

} // verus!
