//! The `recall_memory` command: searches long-term memory and reports the
//! hits back into the conversation log.

use vstd::prelude::*;
use vstd::string::StringExecFns;

use crate::commands::{CommandError, CommandExec, CommandPlan};
use crate::message::{ChatMessage, MessageView};
use crate::severity::SystemMessageSeverity;

verus! {

/// How many memories one recall brings back at most.
pub const RECALL_COUNT: usize = 3;

/// Recalls memories matching a search string.
pub struct RecallMemoryCommand;

impl RecallMemoryCommand {
    /// The command word.
    pub fn name(&self) -> (r: &'static str)
        ensures
            r@ == "recall_memory"@,
    {
        "recall_memory"
    }

    /// The argument list shown in help.
    pub fn args(&self) -> (r: Vec<&'static str>)
        ensures
            r@.len() == 1,
            r@[0]@ == "<search_terms>"@,
    {
        let mut v: Vec<&'static str> = Vec::new();
        v.push("<search_terms>");
        v
    }

    /// What the command does.
    pub fn description(&self) -> (r: &'static str)
        ensures
            r@
                == "Recalls memories from your long-term memory database matching the search string."@,
    {
        "Recalls memories from your long-term memory database matching the search string."
    }

    /// A worked example.
    pub fn usage(&self) -> (r: &'static str)
        ensures
            r@ == "recall_memory \"favorite color\""@,
    {
        "recall_memory \"favorite color\""
    }

    /// Validates the invocation: exactly one argument, the search terms.
    /// The plan asks the caller to run the similarity search; the caller
    /// then reports the hits with `recall_report`.
    pub fn plan(&self, exec: CommandExec) -> (r: Result<CommandPlan, CommandError>)
        ensures
            exec@.args.len() != 1 ==> (r matches Err(CommandError::InvalidArguments(e, m)) && e@
                == exec@ && m@ == "The `recall_memory` command expects exactly one argument"@),
            exec@.args.len() == 1 ==> (r matches Ok(CommandPlan::RecallMemory { query, count })
                && query@ == exec@.args[0] && count == RECALL_COUNT),
    {
        if exec.args.len() != 1 {
            return Err(
                CommandError::InvalidArguments(
                    exec,
                    String::from_str("The `recall_memory` command expects exactly one argument"),
                ),
            );
        }
        let query = exec.args[0].clone();
        Ok(CommandPlan::RecallMemory { query, count: RECALL_COUNT })
    }
}

/// Selects the `count` most recently saved memories, newest first: the
/// recall used when no similarity engine ranks the store.
pub fn newest_memories(memories: &Vec<String>, count: usize) -> (r: Vec<String>)
    ensures
        r@.len() == if count <= memories@.len() {
            count as int
        } else {
            memories@.len() as int
        },
        forall|x: int|
            0 <= x < r@.len() ==> r@[x]@ == memories@[memories@.len() - 1 - x]@,
{
    let mut r: Vec<String> = Vec::new();
    let mut j: usize = 0;
    while j < count && j < memories.len()
        invariant
            j <= count,
            j <= memories@.len(),
            r@.len() == j,
            forall|x: int| 0 <= x < j ==> r@[x]@ == memories@[memories@.len() - 1 - x]@,
        decreases count - j,
    {
        r.push(memories[memories.len() - 1 - j].clone());
        j = j + 1;
    }
    r
}

/// One recalled memory as it appears in the report.
pub open spec fn recall_entry(text: Seq<char>) -> Seq<char> {
    "- `"@ + text + "`"@
}

/// The recalled memories joined by a newline, in the order returned.
pub open spec fn recall_lines(texts: Seq<Seq<char>>) -> Seq<char>
    decreases texts.len(),
{
    if texts.len() == 0 {
        Seq::empty()
    } else if texts.len() == 1 {
        recall_entry(texts[0])
    } else {
        recall_lines(texts.drop_last()) + "\n"@ + recall_entry(texts.last())
    }
}

/// Builds the system message that reports recalled memories back to the
/// model: a header line followed by one line per memory, in search order.
pub fn recall_report(memories: &Vec<String>) -> (r: ChatMessage)
    ensures
        r@ == (MessageView::System {
            severity: SystemMessageSeverity::Info,
            content: "Recalled the following memories:\n"@ + recall_lines(memories.deep_view()),
            tokens: Option::None,
        }),
{
    let ghost all: Seq<Seq<char>> = memories.deep_view();
    let mut content = String::from_str("Recalled the following memories:\n");
    let mut i: usize = 0;
    while i < memories.len()
        invariant
            i <= memories@.len(),
            all == memories.deep_view(),
            all.len() == memories@.len(),
            content@ == "Recalled the following memories:\n"@ + recall_lines(
                all.subrange(0, i as int),
            ),
        decreases memories@.len() - i,
    {
        if i > 0 {
            content.append("\n");
        }
        content.append("- `");
        content.append(memories[i].as_str());
        content.append("`");
        proof {
            let cur = all.subrange(0, i as int + 1);
            assert(cur.drop_last() =~= all.subrange(0, i as int));
            assert(cur.last() == all[i as int]);
            assert(memories@[i as int]@ == all[i as int]);
            assert(content@ =~= "Recalled the following memories:\n"@ + recall_lines(cur));
        }
        i = i + 1;
    }
    proof {
        assert(all.subrange(0, all.len() as int) =~= all);
    }
    ChatMessage::System {
        severity: SystemMessageSeverity::Info,
        content,
        tokens: Option::None,
    }
}

} // verus!
