//! The `save_memory` command: stores a piece of text in long-term memory.

use vstd::prelude::*;
use vstd::string::StringExecFns;

use crate::commands::{CommandError, CommandExec, CommandPlan};
use crate::message::{ChatMessage, MessageView};
use crate::severity::SystemMessageSeverity;

verus! {

/// Saves a memory to the long-term memory database.
pub struct SaveMemoryCommand;

impl SaveMemoryCommand {
    /// The command word.
    pub fn name(&self) -> (r: &'static str)
        ensures
            r@ == "save_memory"@,
    {
        "save_memory"
    }

    /// The argument list shown in help.
    pub fn args(&self) -> (r: Vec<&'static str>)
        ensures
            r@.len() == 1,
            r@[0]@ == "<memory>"@,
    {
        let mut v: Vec<&'static str> = Vec::new();
        v.push("<memory>");
        v
    }

    /// What the command does.
    pub fn description(&self) -> (r: &'static str)
        ensures
            r@ == "Saves a memory to your long-term memory database."@,
    {
        "Saves a memory to your long-term memory database."
    }

    /// A worked example.
    pub fn usage(&self) -> (r: &'static str)
        ensures
            r@ == "save_memory \"This is something I want to remember forever.\""@,
    {
        "save_memory \"This is something I want to remember forever.\""
    }

    /// Validates the invocation: exactly one argument, the memory text.
    /// The plan asks the caller to store it and carries the ready-made
    /// acknowledgement to log afterwards.
    pub fn plan(&self, exec: CommandExec) -> (r: Result<CommandPlan, CommandError>)
        ensures
            exec@.args.len() != 1 ==> (r matches Err(CommandError::InvalidArguments(e, m)) && e@
                == exec@ && m@ == "The `save_memory` command expects exactly one argument"@),
            exec@.args.len() == 1 ==> (r matches Ok(CommandPlan::SaveMemory { memory, ack })
                && memory@ == exec@.args[0] && ack@ == (MessageView::System {
                severity: SystemMessageSeverity::Info,
                content: "This memory has been saved."@,
                tokens: Option::None,
            })),
    {
        if exec.args.len() != 1 {
            return Err(
                CommandError::InvalidArguments(
                    exec,
                    String::from_str("The `save_memory` command expects exactly one argument"),
                ),
            );
        }
        let memory = exec.args[0].clone();
        Ok(
            CommandPlan::SaveMemory {
                memory,
                ack: ChatMessage::System {
                    severity: SystemMessageSeverity::Info,
                    content: String::from_str("This memory has been saved."),
                    tokens: Option::None,
                },
            },
        )
    }
}

} // verus!
