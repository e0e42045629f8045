//! The formatting configuration that wraps each message in the prefix and
//! suffix belonging to its role when a prompt is rendered.

use vstd::prelude::*;
use vstd::string::StringExecFns;

use crate::action::{ActionView, MessageAction};
use crate::message::{ChatMessage, MessageView};

verus! {

/// Role-specific wrapping for rendered prompts, plus the cue message that
/// ends every prompt so the model continues as the assistant.
#[derive(Debug)]
pub struct PromptFormat {
    pub system_msg_prefix: String,
    pub system_msg_suffix: String,
    pub user_msg_prefix: String,
    pub user_msg_suffix: String,
    pub assistant_msg_prefix: String,
    pub assistant_msg_suffix: String,
    pub prompt_suffix_message: ChatMessage,
}

/// The mathematical model of a formatting configuration.
pub ghost struct PromptFormatView {
    pub system_prefix: Seq<char>,
    pub system_suffix: Seq<char>,
    pub user_prefix: Seq<char>,
    pub user_suffix: Seq<char>,
    pub assistant_prefix: Seq<char>,
    pub assistant_suffix: Seq<char>,
    pub suffix_message: MessageView,
}

impl View for PromptFormat {
    type V = PromptFormatView;

    open spec fn view(&self) -> PromptFormatView {
        PromptFormatView {
            system_prefix: self.system_msg_prefix@,
            system_suffix: self.system_msg_suffix@,
            user_prefix: self.user_msg_prefix@,
            user_suffix: self.user_msg_suffix@,
            assistant_prefix: self.assistant_msg_prefix@,
            assistant_suffix: self.assistant_msg_suffix@,
            suffix_message: self.prompt_suffix_message@,
        }
    }
}

impl PromptFormatView {
    /// The prefix a message's role selects.
    pub open spec fn prefix_for(self, m: MessageView) -> Seq<char> {
        match m {
            MessageView::System { .. } => self.system_prefix,
            MessageView::User { .. } => self.user_prefix,
            MessageView::Assistant { .. } => self.assistant_prefix,
        }
    }
}

/// The rendered messages joined by a newline, in log order.
pub open spec fn joined_rendered(msgs: Seq<MessageView>, fmt: PromptFormatView) -> Seq<char>
    decreases msgs.len(),
{
    if msgs.len() == 0 {
        Seq::empty()
    } else if msgs.len() == 1 {
        msgs[0].rendered(fmt)
    } else {
        joined_rendered(msgs.drop_last(), fmt) + "\n"@ + msgs.last().rendered(fmt)
    }
}

/// The cue that ends a prompt: the suffix message wrapped in its role's
/// prefix but no suffix, leaving the line open for the model to complete.
pub open spec fn prompt_cue(fmt: PromptFormatView) -> Seq<char> {
    fmt.prefix_for(fmt.suffix_message) + fmt.suffix_message.content_line()
}

impl PromptFormat {
    /// The model of the conventional chat markup `default` produces.
    pub open spec fn default_view() -> PromptFormatView {
        PromptFormatView {
            system_prefix: "### system\n"@,
            system_suffix: "\n"@,
            user_prefix: "### user\n"@,
            user_suffix: "\n"@,
            assistant_prefix: "### assistant\n"@,
            assistant_suffix: "\n"@,
            suffix_message: MessageView::Assistant {
                action: ActionView::Command,
                content: " "@,
                tokens: Option::None,
            },
        }
    }
}

impl Default for PromptFormat {
    /// The conventional chat markup: `### role` headers, one message per
    /// line, and a cue that continues as the assistant in command state.
    fn default() -> (r: Self)
        ensures
            r@ == PromptFormat::default_view(),
    {
        PromptFormat {
            system_msg_prefix: String::from_str("### system\n"),
            system_msg_suffix: String::from_str("\n"),
            user_msg_prefix: String::from_str("### user\n"),
            user_msg_suffix: String::from_str("\n"),
            assistant_msg_prefix: String::from_str("### assistant\n"),
            assistant_msg_suffix: String::from_str("\n"),
            prompt_suffix_message: ChatMessage::Assistant {
                action: MessageAction::Command,
                content: String::from_str(" "),
                tokens: Option::None,
            },
        }
    }
}

impl PromptFormat {
    /// Renders a list of messages as one prompt: each message wrapped in its
    /// role's prefix and suffix, messages joined by a newline, and the cue
    /// message appended with its prefix only.
    pub fn format_chat_logs(&self, logs: &[&ChatMessage]) -> (r: String)
        ensures
            r@ == joined_rendered(
                Seq::new(logs@.len(), |i: int| logs@[i]@),
                self@,
            ) + "\n"@ + prompt_cue(self@),
    {
        let ghost all: Seq<MessageView> = Seq::new(logs@.len(), |i: int| logs@[i]@);
        let mut prompt = String::new();
        let mut i: usize = 0;
        while i < logs.len()
            invariant
                i <= logs.len(),
                all == Seq::new(logs@.len(), |j: int| logs@[j]@),
                all.len() == logs@.len(),
                prompt@ == joined_rendered(all.subrange(0, i as int), self@),
            decreases logs.len() - i,
        {
            if i > 0 {
                prompt.append("\n");
            }
            let line = logs[i].format(self);
            prompt.append(line.as_str());
            proof {
                let prev = all.subrange(0, i as int);
                let cur = all.subrange(0, (i + 1) as int);
                assert(cur.drop_last() =~= prev);
                assert(cur.last() == all[i as int]);
                assert(prompt@ =~= joined_rendered(cur, self@));
            }
            i = i + 1;
        }
        proof {
            assert(all.subrange(0, all.len() as int) =~= all);
        }
        prompt.append("\n");
        let cue_content = self.prompt_suffix_message.get_content();
        match &self.prompt_suffix_message {
            ChatMessage::System { .. } => prompt.append(self.system_msg_prefix.as_str()),
            ChatMessage::User { .. } => prompt.append(self.user_msg_prefix.as_str()),
            ChatMessage::Assistant { .. } => prompt.append(self.assistant_msg_prefix.as_str()),
        }
        prompt.append(cue_content.as_str());
        proof {
            assert(prompt@ =~= joined_rendered(all, self@) + "\n"@ + prompt_cue(self@));
        }
        prompt
    }
}

} // verus!
