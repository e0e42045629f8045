//! The agent: the conversation log, the action-state machine, the prompt
//! format and the channel router under one roof, with the deterministic
//! steps of a tick. The loop that owns an agent drains inbound messages,
//! prepares a turn, calls the language model (retrying while the reply is
//! blank), and logs and broadcasts the accepted reply; the model call and
//! the tokenizer are the collaborators that run outside the library.

use vstd::prelude::*;
use vstd::string::StringExecFns;

use crate::action::{ActionView, MessageAction};
use crate::commands::{error_feedback, feedback_text, CommandError};
use crate::comms::CommunicationManager;
use crate::format::PromptFormat;
use crate::log::{rendered_seq, MessageLog};
use crate::message::{ChatMessage, MessageView};
use crate::settings::AgentSettings;
use crate::severity::SystemMessageSeverity;
use crate::statemachine::{next_in_cycle, ProcessStateMachine};

verus! {

/// Everything one turn hands to the language-model client: the rendered
/// prompt, the grammar constraining the reply, and the action that will
/// tag it.
pub struct TurnPrompt {
    pub prompt: String,
    pub grammar: String,
    pub action: MessageAction,
}

/// The agent's state: its identity, its memory, its channels and its place
/// in the action cycle.
pub struct Agent {
    pub settings: AgentSettings,
    pub log: MessageLog,
    pub communication_manager: CommunicationManager,
    pub process_state_machine: ProcessStateMachine,
    pub format: PromptFormat,
}

/// Whether a string holds nothing but blanks: the shape of a language-model
/// reply that is retried silently rather than accepted.
pub open spec fn is_blank(s: Seq<char>) -> bool {
    forall|i: int| 0 <= i < s.len() ==> is_space_char(s[i])
}

/// The characters that count as blank in a model reply.
pub open spec fn is_space_char(c: char) -> bool {
    c == ' ' || c == '\t' || c == '\n' || c == '\r'
}

/// Decides whether a model reply is a transient decode failure: empty or
/// made of blanks only. Such a reply is retried, never logged.
pub fn response_is_blank(text: &str) -> (r: bool)
    ensures
        r == is_blank(text@),
{
    let n = text.unicode_len();
    let mut i: usize = 0;
    while i < n
        invariant
            i <= n,
            n == text@.len(),
            forall|j: int| 0 <= j < i ==> is_space_char(text@[j]),
        decreases n - i,
    {
        let c = text.get_char(i);
        if !(c == ' ' || c == '\t' || c == '\n' || c == '\r') {
            return false;
        }
        i = i + 1;
    }
    true
}

/// Caches a token count on a message that has none; a message whose count
/// is already cached is never touched again.
pub fn update_token_count(message: &mut ChatMessage, count: usize)
    ensures
        old(message)@.tokens() is Some ==> final(message)@ == old(message)@,
        old(message)@.tokens() is None ==> final(message)@ == old(message)@.with_tokens(count),
{
    match message.get_tokens() {
        Option::Some(_) => (),
        Option::None => message.set_tokens(count),
    }
}

impl Agent {
    /// An agent is well formed when its log is.
    pub open spec fn wf(self) -> bool {
        self.log.wf()
    }

    /// Creates an agent with a fresh log, no channels and the state machine
    /// at the start of the cycle. The caller renders and installs the
    /// preamble once the tokenizer has counted it.
    pub fn new(settings: AgentSettings) -> (r: Self)
        ensures
            r.wf(),
            r.log@.messages.len() == 1,
            r.log@.temp.len() == 0,
            r.process_state_machine@ is None,
            r.communication_manager@.two_way.len() == 0,
            r.communication_manager@.incoming.len() == 0,
            r.communication_manager@.outgoing.len() == 0,
            r.settings == settings,
            r.format@ == PromptFormat::default_view(),
    {
        Agent {
            settings,
            log: MessageLog::new(),
            communication_manager: CommunicationManager::new(),
            process_state_machine: ProcessStateMachine::new(),
            format: PromptFormat::default(),
        }
    }

    /// Advances the state machine and builds the turn: the whole log
    /// rendered in order, the assistant cue, and the new action's prompt
    /// prefix, together with the grammar that constrains the reply.
    pub fn prepare_turn(&mut self) -> (r: TurnPrompt)
        requires
            old(self).wf(),
        ensures
            final(self).wf(),
            r.action@ == next_in_cycle(old(self).process_state_machine@),
            final(self).process_state_machine@ == Option::Some(r.action@),
            final(self).log == old(self).log,
            final(self).settings == old(self).settings,
            final(self).format == old(self).format,
            final(self).communication_manager == old(self).communication_manager,
            r.prompt@ == rendered_seq(old(self).log@.visible(), old(self).format@)
                + old(self).format@.assistant_prefix + r.action@.prompt_prefix(),
            r.grammar@ == r.action@.grammar(),
    {
        let action = self.process_state_machine.next_action();
        let mut prompt = self.log.format(&self.format);
        prompt.append(self.format.assistant_msg_prefix.as_str());
        let prefix = action.as_prompt();
        prompt.append(prefix.as_str());
        let grammar = action.as_grammar();
        TurnPrompt { prompt, grammar, action }
    }

    /// Wraps an accepted model reply as the assistant message the turn's
    /// action produced. The token count is not known yet.
    pub fn compose_response(&self, action: MessageAction, text: String) -> (r: ChatMessage)
        ensures
            r@ == (MessageView::Assistant {
                action: action@,
                content: text@,
                tokens: Option::None,
            }),
    {
        ChatMessage::Assistant { action, content: text, tokens: Option::None }
    }

    /// Logs a token-annotated message and broadcasts it to every outbound
    /// channel; the names of channels that refused it come back, never an
    /// error. Inbound and generated messages alike pass through here, so
    /// the log reflects per-tick order.
    pub fn log_message(&mut self, message: ChatMessage) -> (failures: Vec<String>)
        requires
            old(self).wf(),
            message@.tokens() is Some,
        ensures
            final(self).wf(),
            final(self).log@.messages == old(self).log@.messages.push(message@),
            final(self).log@.temp == old(self).log@.temp,
            final(self).settings == old(self).settings,
            final(self).format == old(self).format,
            final(self).process_state_machine == old(self).process_state_machine,
            final(self).communication_manager@ == old(self).communication_manager@,
            failures@.len() <= old(self).communication_manager@.two_way.len() + old(
                self,
            ).communication_manager@.outgoing.len(),
            forall|x: int|
                0 <= x < failures@.len() ==> old(self).communication_manager.is_outbound_name(
                    failures@[x]@,
                ),
    {
        let failures = self.communication_manager.send_message(&message);
        self.log.add_message(message);
        failures
    }

    /// Shows a message to the model for the current render only: it joins
    /// the temporary overlay, never the persistent history. Command errors
    /// are reported this way.
    pub fn log_temp_message(&mut self, message: ChatMessage)
        requires
            old(self).wf(),
        ensures
            final(self).wf(),
            final(self).log@.temp == old(self).log@.temp.push(message@),
            final(self).log@.messages == old(self).log@.messages,
            final(self).settings == old(self).settings,
            final(self).format == old(self).format,
            final(self).process_state_machine == old(self).process_state_machine,
            final(self).communication_manager == old(self).communication_manager,
    {
        self.log.add_temp_message(message);
    }

    /// Reports a failed command back to the model: the attempted command
    /// line and the feedback for its error join the temporary overlay, so
    /// they are visible for the next render and never persisted.
    pub fn report_command_failure(&mut self, cmd_line: &str, err: &CommandError)
        requires
            old(self).wf(),
        ensures
            final(self).wf(),
            final(self).log@.temp == old(self).log@.temp.push(
                MessageView::Assistant {
                    action: ActionView::Command,
                    content: cmd_line@,
                    tokens: Option::None,
                },
            ).push(
                MessageView::System {
                    severity: SystemMessageSeverity::Error,
                    content: feedback_text(err@),
                    tokens: Option::None,
                },
            ),
            final(self).log@.messages == old(self).log@.messages,
            final(self).settings == old(self).settings,
            final(self).format == old(self).format,
            final(self).process_state_machine == old(self).process_state_machine,
            final(self).communication_manager == old(self).communication_manager,
    {
        self.log.add_temp_message(
            ChatMessage::Assistant {
                action: MessageAction::Command,
                content: cmd_line.to_owned(),
                tokens: Option::None,
            },
        );
        self.log.add_temp_message(error_feedback(err));
    }

    /// Replaces the pre-prompt, slot 0 of the log, with a freshly rendered
    /// preamble whose token count the caller has computed.
    pub fn update_system_prompt(&mut self, preamble: String, tokens: usize)
        requires
            old(self).wf(),
        ensures
            final(self).wf(),
            final(self).log@ == old(self).log@.with_preamble(preamble@, tokens),
            final(self).settings == old(self).settings,
            final(self).format == old(self).format,
            final(self).process_state_machine == old(self).process_state_machine,
            final(self).communication_manager == old(self).communication_manager,
    {
        self.log.update_pre_prompt(preamble, tokens);
    }
}

} // verus!
