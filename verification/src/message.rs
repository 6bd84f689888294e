//! Role-tagged chat messages and their mathematical view.
use vstd::prelude::*;
use crate::text::chars_of;

verus! {

/// Who wrote a message.
#[derive(Clone, Copy, Debug, PartialEq, Eq, Structural, Hash)]
pub enum ChatRole {
    System,
    User,
    Assistant,
    Function,
}

/// One turn of a conversation.
#[derive(Clone, Debug, PartialEq, Eq)]
pub struct ChatMessage {
    pub role: ChatRole,
    pub content: String,
    pub name: Option<String>,
}

/// What a `ChatMessage` holds, as plain values.
pub struct MessageView {
    pub role: ChatRole,
    pub content: Seq<char>,
    pub name: Option<Seq<char>>,
}

impl DeepView for ChatMessage {
    type V = MessageView;

    open spec fn deep_view(&self) -> MessageView {
        MessageView {
            role: self.role,
            content: self.content@,
            name: match self.name {
                Some(n) => Some(n@),
                None => None,
            },
        }
    }
}

impl ChatMessage {
    /// A message without a participant name.
    pub fn new(role: ChatRole, content: String) -> (message: ChatMessage)
        ensures
            message.deep_view() == (MessageView { role, content: content@, name: None }),
    {
        ChatMessage { role, content, name: None }
    }

    /// A message that carries the name of its participant.
    pub fn named(role: ChatRole, content: String, name: String) -> (message: ChatMessage)
        ensures
            message.deep_view() == (MessageView { role, content: content@, name: Some(name@) }),
    {
        ChatMessage { role, content, name: Some(name) }
    }
}

/// A line that holds nothing to send: it is empty or a bare line ending.
pub open spec fn is_blank_line(line: Seq<char>) -> bool {
    ||| line.len() == 0
    ||| line == seq!['\n']
    ||| line == seq!['\r', '\n']
}

/// Whether a line read from the user is one to send: anything but an empty
/// line or a bare line ending.
pub fn is_submission(line: &str) -> (send: bool)
    ensures
        send == !is_blank_line(line@),
{
    let chars = chars_of(line);
    if chars.len() == 0 {
        false
    } else if chars.len() == 1 {
        proof {
            if chars@[0] == '\n' {
                assert(chars@ =~= seq!['\n']);
            }
        }
        chars[0] != '\n'
    } else if chars.len() == 2 {
        proof {
            if chars@[0] == '\r' && chars@[1] == '\n' {
                assert(chars@ =~= seq!['\r', '\n']);
            }
        }
        !(chars[0] == '\r' && chars[1] == '\n')
    } else {
        true
    }
}

/// The log of a conversation. It only grows, by one message at its end at
/// a time; no message is changed or removed once it is in.
#[derive(Clone, Debug, PartialEq, Eq)]
pub struct Conversation {
    messages: Vec<ChatMessage>,
}

impl DeepView for Conversation {
    type V = Seq<MessageView>;

    closed spec fn deep_view(&self) -> Seq<MessageView> {
        self.messages.deep_view()
    }
}

impl Conversation {
    /// A conversation that opens with `system_prompt`, or with nothing
    /// where that is empty and the dialect is left to its own default.
    pub fn new(system_prompt: String) -> (log: Conversation)
        ensures
            log.deep_view() == if system_prompt@.len() == 0 {
                Seq::<MessageView>::empty()
            } else {
                seq![MessageView { role: ChatRole::System, content: system_prompt@, name: None }]
            },
    {
        let mut messages: Vec<ChatMessage> = Vec::new();
        if !system_prompt.as_str().is_empty() {
            messages.push(ChatMessage::new(ChatRole::System, system_prompt));
        }
        let log = Conversation { messages };
        assert(log.deep_view() =~= if system_prompt@.len() == 0 {
            Seq::<MessageView>::empty()
        } else {
            seq![MessageView { role: ChatRole::System, content: system_prompt@, name: None }]
        });
        log
    }

    /// The messages so far, oldest first.
    pub fn messages(&self) -> (messages: &Vec<ChatMessage>)
        ensures
            messages.deep_view() == self.deep_view(),
    {
        &self.messages
    }

    /// Appends one message to the end of the log.
    pub fn push(&mut self, role: ChatRole, content: String)
        ensures
            final(self).deep_view() == old(self).deep_view().push(
                MessageView { role, content: content@, name: None },
            ),
    {
        let ghost before = self.messages.deep_view();
        self.messages.push(ChatMessage::new(role, content));
        assert(self.messages.deep_view() =~= before.push(
            MessageView { role, content: content@, name: None },
        ));
    }
}

} // verus!
