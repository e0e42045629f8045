//! The `say` command: the one way the agent speaks to the user out loud.

use vstd::prelude::*;
use vstd::string::StringExecFns;

use crate::action::{ActionView, MessageAction};
use crate::commands::{CommandError, CommandExec, CommandPlan};
use crate::message::{ChatMessage, MessageView};

verus! {

/// Says something out loud to the user.
pub struct SayCommand;

impl SayCommand {
    /// The command word.
    pub fn name(&self) -> (r: &'static str)
        ensures
            r@ == "say"@,
    {
        "say"
    }

    /// The argument list shown in help.
    pub fn args(&self) -> (r: Vec<&'static str>)
        ensures
            r@.len() == 1,
            r@[0]@ == "<message>"@,
    {
        let mut v: Vec<&'static str> = Vec::new();
        v.push("<message>");
        v
    }

    /// What the command does.
    pub fn description(&self) -> (r: &'static str)
        ensures
            r@ == "Say something out-loud to the user."@,
    {
        "Say something out-loud to the user."
    }

    /// A worked example.
    pub fn usage(&self) -> (r: &'static str)
        ensures
            r@ == "say \"Hello, world!\""@,
    {
        "say \"Hello, world!\""
    }

    /// Validates the invocation: exactly one argument, the text to say.
    /// The plan carries the spoken message, tagged with the one action
    /// state that makes output user-visible.
    pub fn plan(&self, exec: CommandExec) -> (r: Result<CommandPlan, CommandError>)
        ensures
            exec@.args.len() != 1 ==> (r matches Err(CommandError::InvalidArguments(e, m)) && e@
                == exec@ && m@ == "The `say` command expects exactly one argument"@),
            exec@.args.len() == 1 ==> (r matches Ok(CommandPlan::Say { message }) && message@
                == (MessageView::Assistant {
                action: ActionView::Say,
                content: exec@.args[0],
                tokens: Option::None,
            })),
    {
        if exec.args.len() != 1 {
            return Err(
                CommandError::InvalidArguments(
                    exec,
                    String::from_str("The `say` command expects exactly one argument"),
                ),
            );
        }
        let content = exec.args[0].clone();
        Ok(
            CommandPlan::Say {
                message: ChatMessage::Assistant {
                    action: MessageAction::Say,
                    content,
                    tokens: Option::None,
                },
            },
        )
    }
}

} // verus!
