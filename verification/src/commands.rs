//! The command interpreter: parsing a command line the model produced,
//! dispatching it to the fixed set of commands, and the feedback shown to
//! the model when a command goes wrong.

pub mod recall_memory;
pub mod save_memory;
pub mod say;
pub mod think;

use vstd::prelude::*;
use vstd::string::StringExecFns;

use crate::action::{ActionView, MessageAction};
use crate::message::{ChatMessage, MessageView};
use crate::severity::{str_eq, SystemMessageSeverity};

pub use recall_memory::RecallMemoryCommand;
pub use save_memory::SaveMemoryCommand;
pub use say::SayCommand;
pub use think::ThinkCommand;

verus! {

/// What `shlex::split` returns: the words of a shell-like command line, or
/// nothing when the line is malformed.
pub uninterp spec fn shell_split(s: Seq<char>) -> Option<Seq<Seq<char>>>;

/// Relies on shlex::split: splits a command line into words by shell rules
/// and reports a malformed line as `None`; the result depends on the line
/// alone.
#[verifier::external_body]
fn split_command_line(s: &str) -> (r: Option<Vec<String>>)
    ensures
        r.deep_view() == shell_split(s@),
{
    shlex::split(s)
}

/// Relies on String::push: appends one character.
#[verifier::external_body]
fn push_char(s: &mut String, c: char)
    ensures
        final(s)@ == old(s)@.push(c),
{
    s.push(c);
}

/// An upper-case ASCII letter mapped to its lower-case form; anything else
/// unchanged.
pub open spec fn lower_char(c: char) -> char {
    if 'A' <= c && c <= 'Z' {
        (((c as u8) + 32) as u8) as char
    } else {
        c
    }
}

/// A string with every upper-case ASCII letter lowered.
pub open spec fn ascii_lower(s: Seq<char>) -> Seq<char> {
    s.map_values(|c: char| lower_char(c))
}

fn lower_char_exec(c: char) -> (r: char)
    ensures
        r == lower_char(c),
{
    if c >= 'A' && c <= 'Z' {
        ((c as u8) + 32) as char
    } else {
        c
    }
}

/// Lowers every upper-case ASCII letter of a string. Characters outside
/// ASCII pass through unchanged: command words are ASCII, so no Unicode
/// case folding is needed here.
fn ascii_lowercase(s: &str) -> (r: String)
    ensures
        r@ == ascii_lower(s@),
{
    let n = s.unicode_len();
    let mut r = String::new();
    let mut i: usize = 0;
    while i < n
        invariant
            i <= n,
            n == s@.len(),
            r@ == ascii_lower(s@.subrange(0, i as int)),
        decreases n - i,
    {
        let c = s.get_char(i);
        push_char(&mut r, lower_char_exec(c));
        proof {
            assert(ascii_lower(s@.subrange(0, i as int + 1)) =~= ascii_lower(
                s@.subrange(0, i as int),
            ).push(lower_char(s@[i as int])));
        }
        i = i + 1;
    }
    proof {
        assert(s@.subrange(0, s@.len() as int) =~= s@);
    }
    r
}

/// One parsed command invocation: the line it came from, the lowered
/// command word, and its arguments.
#[derive(Debug)]
pub struct CommandExec {
    pub cmd_line: String,
    pub cmd: String,
    pub args: Vec<String>,
}

/// The mathematical model of a command invocation.
pub ghost struct CommandExecView {
    pub cmd_line: Seq<char>,
    pub cmd: Seq<char>,
    pub args: Seq<Seq<char>>,
}

impl View for CommandExec {
    type V = CommandExecView;

    open spec fn view(&self) -> CommandExecView {
        CommandExecView { cmd_line: self.cmd_line@, cmd: self.cmd@, args: self.args.deep_view() }
    }
}

impl Clone for CommandExec {
    /// A cloned invocation models the same invocation.
    fn clone(&self) -> (r: Self)
        ensures
            r@ == self@,
    {
        let copied_args = self.args.clone();
        proof {
            assert forall|i: int| 0 <= i < self.args@.len() implies copied_args@[i]
                == self.args@[i] by {
                assert(cloned::<String>(self.args@[i], copied_args@[i]));
            }
            assert(copied_args.deep_view() =~= self.args.deep_view());
        }
        CommandExec {
            cmd_line: self.cmd_line.clone(),
            cmd: self.cmd.clone(),
            args: copied_args,
        }
    }
}

impl vstd::std_specs::convert::FromSpecImpl<CommandExec> for ChatMessage {
    open spec fn obeys_from_spec() -> bool {
        true
    }

    open spec fn from_spec(v: CommandExec) -> ChatMessage {
        ChatMessage::Assistant {
            action: MessageAction::Command,
            content: v.cmd_line,
            tokens: Option::None,
        }
    }
}

impl From<CommandExec> for ChatMessage {
    /// Echoes an invocation as the assistant message that issued it.
    fn from(value: CommandExec) -> (r: ChatMessage) {
        ChatMessage::Assistant {
            action: MessageAction::Command,
            content: value.cmd_line,
            tokens: Option::None,
        }
    }
}

/// Why a command could not be run.
#[derive(Debug)]
pub enum CommandError {
    /// No command of that name exists.
    InvalidCommand(String),
    /// The command exists but was invoked with the wrong arguments.
    InvalidArguments(CommandExec, String),
    /// The command failed while running; the text says how.
    InternalError(CommandExec, String),
    /// The command line could not be split into words.
    CommandFormat(String),
    /// The command line held no words at all.
    EmptyCommand,
}

/// The mathematical model of a command failure.
pub ghost enum CommandErrorView {
    InvalidCommand(Seq<char>),
    InvalidArguments(CommandExecView, Seq<char>),
    InternalError(CommandExecView, Seq<char>),
    CommandFormat(Seq<char>),
    EmptyCommand,
}

impl View for CommandError {
    type V = CommandErrorView;

    open spec fn view(&self) -> CommandErrorView {
        match self {
            CommandError::InvalidCommand(cmd) => CommandErrorView::InvalidCommand(cmd@),
            CommandError::InvalidArguments(exec, msg) => CommandErrorView::InvalidArguments(
                exec@,
                msg@,
            ),
            CommandError::InternalError(exec, msg) => CommandErrorView::InternalError(exec@, msg@),
            CommandError::CommandFormat(line) => CommandErrorView::CommandFormat(line@),
            CommandError::EmptyCommand => CommandErrorView::EmptyCommand,
        }
    }
}

/// What the loop must do for a command that passed validation. The outside
/// work (storing a memory, searching it, pausing after speech) is carried
/// out by the caller; every message here is ready to log.
#[derive(Debug)]
pub enum CommandPlan {
    /// Say the message out loud: the one user-visible command.
    Say { message: ChatMessage },
    /// Keep the thought private in the log.
    Think { message: ChatMessage },
    /// Store `memory` in long-term memory, then log the acknowledgement.
    SaveMemory { memory: String, ack: ChatMessage },
    /// Search long-term memory for `query`, keeping at most `count` hits.
    RecallMemory { query: String, count: usize },
}

/// Whether a command of this name exists.
pub open spec fn known_command(name: Seq<char>) -> bool {
    name == "say"@ || name == "think"@ || name == "save_memory"@ || name == "recall_memory"@
}

/// The usage example of each command; empty for an unknown name.
pub open spec fn usage_of(name: Seq<char>) -> Seq<char> {
    if name == "say"@ {
        "say \"Hello, world!\""@
    } else if name == "think"@ {
        "think \"I wonder what I'm going to do, tomorrow.\""@
    } else if name == "save_memory"@ {
        "save_memory \"This is something I want to remember forever.\""@
    } else if name == "recall_memory"@ {
        "recall_memory \"favorite color\""@
    } else {
        Seq::empty()
    }
}

/// Splits a command line into an invocation: the first word, lowered
/// ASCII-letter by ASCII-letter, is the command, the rest are its
/// arguments. A line that cannot be split is a format error; a line with
/// no words is an empty command.
pub fn parse_command(cmd: &str) -> (r: Result<CommandExec, CommandError>)
    ensures
        shell_split(cmd@) is None ==> (r matches Err(CommandError::CommandFormat(c)) && c@
            == cmd@),
        shell_split(cmd@) matches Some(els) ==> (els.len() == 0 ==> r matches Err(
            CommandError::EmptyCommand,
        )),
        shell_split(cmd@) matches Some(els) ==> (els.len() > 0 ==> (r matches Ok(exec) && {
            &&& exec@.cmd == ascii_lower(els[0])
            &&& exec@.cmd_line == ascii_lower(els[0])
            &&& exec@.args == els.subrange(1, els.len() as int)
        })),
{
    let elements = match split_command_line(cmd) {
        Option::Some(elements) => elements,
        Option::None => {
            return Err(CommandError::CommandFormat(cmd.to_owned()));
        }
    };
    let ghost els: Seq<Seq<char>> = elements.deep_view();
    if elements.len() == 0 {
        return Err(CommandError::EmptyCommand);
    }
    let lowered = ascii_lowercase(elements[0].as_str());
    let mut args: Vec<String> = Vec::new();
    let mut i: usize = 1;
    while i < elements.len()
        invariant
            1 <= i <= elements@.len(),
            els == elements.deep_view(),
            els.len() == elements@.len(),
            args@.len() == i - 1,
            forall|j: int| 0 <= j < i - 1 ==> args@[j]@ == els[j + 1],
        decreases elements@.len() - i,
    {
        let pushed = elements[i].clone();
        assert(pushed@ == els[i as int]);
        args.push(pushed);
        i = i + 1;
    }
    proof {
        let rest = els.subrange(1, els.len() as int);
        assert forall|j: int| 0 <= j < args.deep_view().len() implies args.deep_view()[j]
            == rest[j] by {
            assert(args.deep_view()[j] == args@[j]@);
        }
        assert(args.deep_view() =~= rest);
    }
    Ok(CommandExec { cmd_line: lowered.clone(), cmd: lowered, args })
}

/// Dispatches a parsed invocation to its command. An unknown name is an
/// invalid command; each command checks its own arguments and yields the
/// plan the loop must carry out.
pub fn plan_command(exec: CommandExec) -> (r: Result<CommandPlan, CommandError>)
    ensures
        !known_command(exec@.cmd) ==> (r matches Err(CommandError::InvalidCommand(c)) && c@
            == exec@.cmd),
        known_command(exec@.cmd) && exec@.args.len() != 1 ==> (r matches Err(
            CommandError::InvalidArguments(e, _m),
        ) && e@ == exec@),
        exec@.cmd == "say"@ && exec@.args.len() == 1 ==> (r matches Ok(CommandPlan::Say { message })
            && message@ == (MessageView::Assistant {
            action: ActionView::Say,
            content: exec@.args[0],
            tokens: Option::None,
        })),
        exec@.cmd == "think"@ && exec@.args.len() == 1 ==> (r matches Ok(
            CommandPlan::Think { message },
        ) && message@ == (MessageView::Assistant {
            action: ActionView::Command,
            content: exec@.args[0],
            tokens: Option::None,
        })),
        exec@.cmd == "save_memory"@ && exec@.args.len() == 1 ==> (r matches Ok(
            CommandPlan::SaveMemory { memory, ack },
        ) && memory@ == exec@.args[0] && ack@ == (MessageView::System {
            severity: SystemMessageSeverity::Info,
            content: "This memory has been saved."@,
            tokens: Option::None,
        })),
        exec@.cmd == "recall_memory"@ && exec@.args.len() == 1 ==> (r matches Ok(
            CommandPlan::RecallMemory { query, count },
        ) && query@ == exec@.args[0] && count == 3),
{
    proof {
        reveal_strlit("say");
        reveal_strlit("think");
        reveal_strlit("save_memory");
        reveal_strlit("recall_memory");
        assert("say"@.len() == 3);
        assert("think"@.len() == 5);
        assert("save_memory"@.len() == 11);
        assert("recall_memory"@.len() == 13);
    }
    if str_eq(exec.cmd.as_str(), "say") {
        SayCommand.plan(exec)
    } else if str_eq(exec.cmd.as_str(), "think") {
        ThinkCommand.plan(exec)
    } else if str_eq(exec.cmd.as_str(), "save_memory") {
        SaveMemoryCommand.plan(exec)
    } else if str_eq(exec.cmd.as_str(), "recall_memory") {
        RecallMemoryCommand.plan(exec)
    } else {
        Err(CommandError::InvalidCommand(exec.cmd))
    }
}

/// Interprets a raw command line: parses it and dispatches it. This is the
/// whole deterministic part of running a command; the caller performs the
/// plan and reports any error with `error_feedback`.
pub fn interpret_command(cmd: &str) -> (r: Result<CommandPlan, CommandError>)
    ensures
        shell_split(cmd@) is None ==> r matches Err(CommandError::CommandFormat(_c)),
        shell_split(cmd@) matches Some(els) ==> (els.len() == 0 ==> r matches Err(
            CommandError::EmptyCommand,
        )),
        shell_split(cmd@) matches Some(els) ==> (els.len() > 0 && !known_command(
            ascii_lower(els[0]),
        ) ==> r matches Err(CommandError::InvalidCommand(_c))),
        shell_split(cmd@) matches Some(els) ==> (els.len() > 0 && known_command(
            ascii_lower(els[0]),
        ) && els.len() != 2 ==> r matches Err(CommandError::InvalidArguments(_e, _m))),
        shell_split(cmd@) matches Some(els) ==> (ascii_lower(els[0]) == "say"@ && els.len() == 2
            ==> (r matches Ok(CommandPlan::Say { message }) && message@
            == (MessageView::Assistant {
            action: ActionView::Say,
            content: els[1],
            tokens: Option::None,
        }))),
        shell_split(cmd@) matches Some(els) ==> (ascii_lower(els[0]) == "think"@ && els.len() == 2
            ==> (r matches Ok(CommandPlan::Think { message }) && message@
            == (MessageView::Assistant {
            action: ActionView::Command,
            content: els[1],
            tokens: Option::None,
        }))),
        shell_split(cmd@) matches Some(els) ==> (ascii_lower(els[0]) == "save_memory"@ && els.len()
            == 2 ==> (r matches Ok(CommandPlan::SaveMemory { memory, ack: _ack }) && memory@
            == els[1])),
        shell_split(cmd@) matches Some(els) ==> (ascii_lower(els[0]) == "recall_memory"@
            && els.len() == 2 ==> (r matches Ok(CommandPlan::RecallMemory { query, count })
            && query@ == els[1] && count == 3)),
{
    match parse_command(cmd) {
        Ok(exec) => plan_command(exec),
        Err(e) => Err(e),
    }
}

/// The feedback text for each failure, shown to the model as a temporary
/// system message.
pub open spec fn feedback_text(e: CommandErrorView) -> Seq<char> {
    match e {
        CommandErrorView::InvalidCommand(cmd) => "You have entered an invalid command: `"@ + cmd
            + "`. Available commands: `say`, `think`, `save_memory`, `recall_memory`"@,
        CommandErrorView::InvalidArguments(exec, message) => "You have used the command `"@
            + exec.cmd + "` incorrectly. "@ + message + "\nExample usage: `"@ + usage_of(exec.cmd)
            + "`"@,
        CommandErrorView::InternalError(exec, message) =>
            "An internal error has occurred while executing the command `"@ + exec.cmd + "`. "@
            + message,
        CommandErrorView::CommandFormat(_) =>
            "The command you entered could not be parsed. Make sure you are using quotes and whitespace correctly."@,
        CommandErrorView::EmptyCommand => "The command you entered was empty."@,
    }
}

/// Builds the temporary system message that reports a command failure back
/// to the model. Never fatal: user-visible feedback only.
pub fn error_feedback(err: &CommandError) -> (r: ChatMessage)
    ensures
        r@ == (MessageView::System {
            severity: SystemMessageSeverity::Error,
            content: feedback_text(err@),
            tokens: Option::None,
        }),
{
    let content: String = match err {
        CommandError::InvalidCommand(cmd) => {
            let mut s = String::from_str("You have entered an invalid command: `");
            s.append(cmd.as_str());
            s.append("`. Available commands: `say`, `think`, `save_memory`, `recall_memory`");
            assert(s@ =~= feedback_text(err@));
            s
        }
        CommandError::InvalidArguments(exec, message) => {
            let usage: &str = if str_eq(exec.cmd.as_str(), "say") {
                "say \"Hello, world!\""
            } else if str_eq(exec.cmd.as_str(), "think") {
                "think \"I wonder what I'm going to do, tomorrow.\""
            } else if str_eq(exec.cmd.as_str(), "save_memory") {
                "save_memory \"This is something I want to remember forever.\""
            } else if str_eq(exec.cmd.as_str(), "recall_memory") {
                "recall_memory \"favorite color\""
            } else {
                ""
            };
            proof {
                reveal_strlit("");
                assert(usage@ == usage_of(exec@.cmd));
            }
            let mut s = String::from_str("You have used the command `");
            s.append(exec.cmd.as_str());
            s.append("` incorrectly. ");
            s.append(message.as_str());
            s.append("\nExample usage: `");
            s.append(usage);
            s.append("`");
            assert(s@ =~= feedback_text(err@));
            s
        }
        CommandError::InternalError(exec, message) => {
            let mut s = String::from_str(
                "An internal error has occurred while executing the command `",
            );
            s.append(exec.cmd.as_str());
            s.append("`. ");
            s.append(message.as_str());
            assert(s@ =~= feedback_text(err@));
            s
        }
        CommandError::CommandFormat(_) => String::from_str(
            "The command you entered could not be parsed. Make sure you are using quotes and whitespace correctly.",
        ),
        CommandError::EmptyCommand => String::from_str("The command you entered was empty."),
    };
    ChatMessage::System {
        severity: SystemMessageSeverity::Error,
        content,
        tokens: Option::None,
    }
}

} // verus!
