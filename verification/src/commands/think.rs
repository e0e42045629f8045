//! The `think` command: a private thought, logged but never said aloud.

use vstd::prelude::*;
use vstd::string::StringExecFns;

use crate::action::{ActionView, MessageAction};
use crate::commands::{CommandError, CommandExec, CommandPlan};
use crate::message::{ChatMessage, MessageView};

verus! {

/// Thinks something to the agent itself.
pub struct ThinkCommand;

impl ThinkCommand {
    /// The command word.
    pub fn name(&self) -> (r: &'static str)
        ensures
            r@ == "think"@,
    {
        "think"
    }

    /// The argument list shown in help.
    pub fn args(&self) -> (r: Vec<&'static str>)
        ensures
            r@.len() == 1,
            r@[0]@ == "<message>"@,
    {
        let mut v: Vec<&'static str> = Vec::new();
        v.push("<message>");
        v
    }

    /// What the command does.
    pub fn description(&self) -> (r: &'static str)
        ensures
            r@ == "Think something to yourself."@,
    {
        "Think something to yourself."
    }

    /// A worked example.
    pub fn usage(&self) -> (r: &'static str)
        ensures
            r@ == "think \"I wonder what I'm going to do, tomorrow.\""@,
    {
        "think \"I wonder what I'm going to do, tomorrow.\""
    }

    /// Validates the invocation: exactly one argument, the thought. The
    /// plan carries the thought tagged with the command action state, which
    /// keeps it out of user-visible output.
    pub fn plan(&self, exec: CommandExec) -> (r: Result<CommandPlan, CommandError>)
        ensures
            exec@.args.len() != 1 ==> (r matches Err(CommandError::InvalidArguments(e, m)) && e@
                == exec@ && m@ == "The `think` command expects exactly one argument"@),
            exec@.args.len() == 1 ==> (r matches Ok(CommandPlan::Think { message }) && message@
                == (MessageView::Assistant {
                action: ActionView::Command,
                content: exec@.args[0],
                tokens: Option::None,
            })),
    {
        if exec.args.len() != 1 {
            return Err(
                CommandError::InvalidArguments(
                    exec,
                    String::from_str("The `think` command expects exactly one argument"),
                ),
            );
        }
        let content = exec.args[0].clone();
        Ok(
            CommandPlan::Think {
                message: ChatMessage::Assistant {
                    action: MessageAction::Command,
                    content,
                    tokens: Option::None,
                },
            },
        )
    }
}

} // verus!
