//! The message type exchanged everywhere: system notices, user input and
//! assistant output, each carrying an optional cached token count.

use vstd::prelude::*;
use vstd::string::StringExecFns;

use crate::action::{ActionView, MessageAction};
use crate::format::{PromptFormat, PromptFormatView};
use crate::severity::SystemMessageSeverity;

verus! {

/// The unit exchanged between the loop, the log and the channels.
/// A message's token count is `None` until it is computed once by the
/// tokenizer; after that the message is immutable.
#[derive(Debug, PartialEq, Eq)]
pub enum ChatMessage {
    System { severity: SystemMessageSeverity, content: String, tokens: Option<usize> },
    User { username: String, content: String, tokens: Option<usize> },
    Assistant { action: MessageAction, content: String, tokens: Option<usize> },
}

/// The mathematical model of a message.
pub ghost enum MessageView {
    System { severity: SystemMessageSeverity, content: Seq<char>, tokens: Option<usize> },
    User { username: Seq<char>, content: Seq<char>, tokens: Option<usize> },
    Assistant { action: ActionView, content: Seq<char>, tokens: Option<usize> },
}

impl View for ChatMessage {
    type V = MessageView;

    open spec fn view(&self) -> MessageView {
        match self {
            ChatMessage::System { severity, content, tokens } => MessageView::System {
                severity: *severity,
                content: content@,
                tokens: *tokens,
            },
            ChatMessage::User { username, content, tokens } => MessageView::User {
                username: username@,
                content: content@,
                tokens: *tokens,
            },
            ChatMessage::Assistant { action, content, tokens } => MessageView::Assistant {
                action: action@,
                content: content@,
                tokens: *tokens,
            },
        }
    }
}

impl MessageView {
    /// The role label a message is stored and rendered under.
    pub open spec fn role(self) -> Seq<char> {
        match self {
            MessageView::System { .. } => "system"@,
            MessageView::User { .. } => "user"@,
            MessageView::Assistant { .. } => "assistant"@,
        }
    }

    /// The raw text of the message.
    pub open spec fn text(self) -> Seq<char> {
        match self {
            MessageView::System { content, .. } => content,
            MessageView::User { content, .. } => content,
            MessageView::Assistant { content, .. } => content,
        }
    }

    /// The cached token count, if it has been computed.
    pub open spec fn tokens(self) -> Option<usize> {
        match self {
            MessageView::System { tokens, .. } => tokens,
            MessageView::User { tokens, .. } => tokens,
            MessageView::Assistant { tokens, .. } => tokens,
        }
    }

    /// The same message with its token count set to `t`.
    pub open spec fn with_tokens(self, t: usize) -> MessageView {
        match self {
            MessageView::System { severity, content, .. } => MessageView::System {
                severity,
                content,
                tokens: Option::Some(t),
            },
            MessageView::User { username, content, .. } => MessageView::User {
                username,
                content,
                tokens: Option::Some(t),
            },
            MessageView::Assistant { action, content, .. } => MessageView::Assistant {
                action,
                content,
                tokens: Option::Some(t),
            },
        }
    }

    /// The single line a message contributes to a rendered prompt, before
    /// role wrapping: its origin label followed by its text.
    pub open spec fn content_line(self) -> Seq<char> {
        match self {
            MessageView::System { severity, content, .. } => seq!['['] + severity.spec_name()
                + "] "@ + content,
            MessageView::User { username, content, .. } => username + ": "@ + content,
            MessageView::Assistant { action, content, .. } => action.name() + ": "@ + content,
        }
    }

    /// The fully rendered form of a message: its content line wrapped in the
    /// prefix and suffix of its role.
    pub open spec fn rendered(self, fmt: PromptFormatView) -> Seq<char> {
        match self {
            MessageView::System { .. } => fmt.system_prefix + self.content_line()
                + fmt.system_suffix,
            MessageView::User { .. } => fmt.user_prefix + self.content_line() + fmt.user_suffix,
            MessageView::Assistant { .. } => fmt.assistant_prefix + self.content_line()
                + fmt.assistant_suffix,
        }
    }
}

impl ChatMessage {
    /// The role label of this message: `system`, `user` or `assistant`.
    pub fn get_role(&self) -> (r: &'static str)
        ensures
            r@ == self@.role(),
    {
        match self {
            ChatMessage::System { .. } => "system",
            ChatMessage::User { .. } => "user",
            ChatMessage::Assistant { .. } => "assistant",
        }
    }

    /// Renders the message's content line: its origin label followed by its
    /// text.
    pub fn get_content(&self) -> (r: String)
        ensures
            r@ == self@.content_line(),
    {
        match self {
            ChatMessage::System { severity, content, .. } => {
                let mut s = String::from_str("[");
                s.append(severity.name());
                s.append("] ");
                s.append(content.as_str());
                proof {
                    reveal_strlit("[");
                    assert(s@ =~= self@.content_line());
                }
                s
            }
            ChatMessage::User { username, content, .. } => {
                let mut s = String::from_str(username.as_str());
                s.append(": ");
                s.append(content.as_str());
                assert(s@ =~= self@.content_line());
                s
            }
            ChatMessage::Assistant { action, content, .. } => {
                let mut s = String::from_str(action.name());
                s.append(": ");
                s.append(content.as_str());
                assert(s@ =~= self@.content_line());
                s
            }
        }
    }

    /// Renders the message in full: its content line wrapped in the prefix
    /// and suffix belonging to its role.
    pub fn format(&self, settings: &PromptFormat) -> (r: String)
        ensures
            r@ == self@.rendered(settings@),
    {
        let content = self.get_content();
        match self {
            ChatMessage::System { .. } => {
                let mut s = String::from_str(settings.system_msg_prefix.as_str());
                s.append(content.as_str());
                s.append(settings.system_msg_suffix.as_str());
                s
            }
            ChatMessage::User { .. } => {
                let mut s = String::from_str(settings.user_msg_prefix.as_str());
                s.append(content.as_str());
                s.append(settings.user_msg_suffix.as_str());
                s
            }
            ChatMessage::Assistant { .. } => {
                let mut s = String::from_str(settings.assistant_msg_prefix.as_str());
                s.append(content.as_str());
                s.append(settings.assistant_msg_suffix.as_str());
                s
            }
        }
    }

    /// The cached token count, if it has been computed.
    pub fn get_tokens(&self) -> (r: Option<usize>)
        ensures
            r == self@.tokens(),
    {
        match self {
            ChatMessage::System { tokens, .. } => *tokens,
            ChatMessage::User { tokens, .. } => *tokens,
            ChatMessage::Assistant { tokens, .. } => *tokens,
        }
    }

    /// Caches the token count of a message that does not have one yet.
    pub fn set_tokens(&mut self, tokens: usize)
        requires
            old(self)@.tokens() is None,
        ensures
            final(self)@ == old(self)@.with_tokens(tokens),
    {
        let updated = match &*self {
            ChatMessage::System { severity, content, .. } => ChatMessage::System {
                severity: *severity,
                content: content.clone(),
                tokens: Option::Some(tokens),
            },
            ChatMessage::User { username, content, .. } => ChatMessage::User {
                username: username.clone(),
                content: content.clone(),
                tokens: Option::Some(tokens),
            },
            ChatMessage::Assistant { action, content, .. } => ChatMessage::Assistant {
                action: action.clone(),
                content: content.clone(),
                tokens: Option::Some(tokens),
            },
        };
        *self = updated;
    }
}

impl Clone for ChatMessage {
    /// A cloned message models the same message.
    fn clone(&self) -> (r: Self)
        ensures
            r@ == self@,
    {
        match self {
            ChatMessage::System { severity, content, tokens } => ChatMessage::System {
                severity: *severity,
                content: content.clone(),
                tokens: *tokens,
            },
            ChatMessage::User { username, content, tokens } => ChatMessage::User {
                username: username.clone(),
                content: content.clone(),
                tokens: *tokens,
            },
            ChatMessage::Assistant { action, content, tokens } => ChatMessage::Assistant {
                action: action.clone(),
                content: content.clone(),
                tokens: *tokens,
            },
        }
    }
}

} // verus!
