//! Messages of a conversation and the notification that carries a chunk.

use vstd::prelude::*;

verus! {

/// Who a message is from.
#[derive(Clone, Copy, Debug, PartialEq, Eq, Structural)]
pub enum Role {
    User,
    Assistant,
    System,
}

impl Role {
    /// The role as the backend and the listener spell it.
    pub open spec fn wire_name(self) -> Seq<char> {
        match self {
            Role::User => "user"@,
            Role::Assistant => "assistant"@,
            Role::System => "system"@,
        }
    }

    /// The role as the backend and the listener spell it.
    pub fn as_str(&self) -> (name: &'static str)
        ensures
            name@ == self.wire_name(),
    {
        match self {
            Role::User => "user",
            Role::Assistant => "assistant",
            Role::System => "system",
        }
    }
}

/// One turn of a conversation.
#[derive(Clone, Debug, PartialEq, Eq)]
pub struct Message {
    pub role: Role,
    pub content: String,
}

/// What a `Message` holds.
pub ghost struct MessageView {
    pub role: Role,
    pub content: Seq<char>,
}

impl View for Message {
    type V = MessageView;

    open spec fn view(&self) -> MessageView {
        MessageView { role: self.role, content: self.content@ }
    }
}

impl DeepView for Message {
    type V = MessageView;

    open spec fn deep_view(&self) -> MessageView {
        self@
    }
}

/// The notification sent to the listener for one chunk.
#[derive(Clone, Debug, PartialEq, Eq)]
pub struct Payload {
    pub role: Role,
    pub content: String,
}

/// What a `Payload` holds.
pub ghost struct PayloadView {
    pub role: Role,
    pub content: Seq<char>,
}

impl View for Payload {
    type V = PayloadView;

    open spec fn view(&self) -> PayloadView {
        PayloadView { role: self.role, content: self.content@ }
    }
}

/// The notification for a chunk of assistant text.
pub open spec fn assistant_payload(text: Seq<char>) -> PayloadView {
    PayloadView { role: Role::Assistant, content: text }
}

/// Parts a conversation into the turns before the last one and the last one.
/// An empty conversation has no last turn.
pub fn split_conversation(conversation: Vec<Message>) -> (parts: Option<(Vec<Message>, Message)>)
    ensures
        conversation@.len() == 0 <==> parts is None,
        parts matches Some((history, current_turn)) ==> {
            &&& history.deep_view() == conversation.deep_view().drop_last()
            &&& current_turn@ == conversation.deep_view().last()
        },
{
    let ghost turns = conversation.deep_view();
    let mut history = conversation;
    match history.pop() {
        None => None,
        Some(current_turn) => {
            assert(history.deep_view() =~= turns.drop_last());
            Some((history, current_turn))
        },
    }
}

} // verus!
