use project_lily::commands::recall_memory::{newest_memories, recall_report};
use project_lily::commands::{
    error_feedback, interpret_command, parse_command, plan_command, CommandError, CommandExec,
    CommandPlan, RecallMemoryCommand, SaveMemoryCommand, SayCommand, ThinkCommand,
};
use project_lily::message::ChatMessage;

#[test]
fn command_metadata() {
    assert_eq!(SayCommand.name(), "say");
    assert_eq!(ThinkCommand.name(), "think");
    assert_eq!(SaveMemoryCommand.name(), "save_memory");
    assert_eq!(RecallMemoryCommand.name(), "recall_memory");
    assert_eq!(SayCommand.args(), vec!["<message>"]);
    assert_eq!(RecallMemoryCommand.args(), vec!["<search_terms>"]);
    assert_eq!(SayCommand.usage(), "say \"Hello, world!\"");
    assert!(SaveMemoryCommand.description().contains("long-term memory"));
}

#[test]
fn parse_splits_command_and_arguments() {
    let exec = parse_command("say \"Hello, world!\"").unwrap();
    assert_eq!(exec.cmd, "say");
    assert_eq!(exec.args, vec![String::from("Hello, world!")]);
}

#[test]
fn parse_lowers_the_command_word() {
    let exec = parse_command("SAY hello").unwrap();
    assert_eq!(exec.cmd, "say");
    assert_eq!(exec.cmd_line, "say");
}

#[test]
fn parse_rejects_an_unclosed_quote() {
    match parse_command("say \"unterminated") {
        Err(CommandError::CommandFormat(line)) => assert_eq!(line, "say \"unterminated"),
        other => panic!("expected a format error, got {:?}", other),
    }
}

#[test]
fn parse_rejects_an_empty_line() {
    assert!(matches!(parse_command(""), Err(CommandError::EmptyCommand)));
    assert!(matches!(parse_command("   "), Err(CommandError::EmptyCommand)));
}

#[test]
fn unknown_command_is_invalid() {
    match interpret_command("dance") {
        Err(CommandError::InvalidCommand(cmd)) => assert_eq!(cmd, "dance"),
        other => panic!("expected an invalid command, got {:?}", other),
    }
}

#[test]
fn say_plans_a_spoken_message() {
    match interpret_command("say \"good morning\"") {
        Ok(CommandPlan::Say { message }) => {
            assert_eq!(message.get_content(), "SAY: good morning");
            assert_eq!(message.get_role(), "assistant");
        }
        _ => panic!("expected a say plan"),
    }
}

#[test]
fn think_plans_a_private_message() {
    match interpret_command("think \"quiet thought\"") {
        Ok(CommandPlan::Think { message }) => {
            assert_eq!(message.get_content(), "COMMAND: quiet thought");
        }
        _ => panic!("expected a think plan"),
    }
}

#[test]
fn save_memory_plans_storage_and_acknowledgement() {
    match interpret_command("save_memory \"the sky is blue\"") {
        Ok(CommandPlan::SaveMemory { memory, ack }) => {
            assert_eq!(memory, "the sky is blue");
            assert_eq!(ack.get_content(), "[info] This memory has been saved.");
        }
        _ => panic!("expected a save plan"),
    }
}

#[test]
fn recall_memory_plans_a_search_of_three() {
    match interpret_command("recall_memory \"favorite color\"") {
        Ok(CommandPlan::RecallMemory { query, count }) => {
            assert_eq!(query, "favorite color");
            assert_eq!(count, 3);
        }
        _ => panic!("expected a recall plan"),
    }
}

#[test]
fn wrong_arity_is_invalid_arguments() {
    match interpret_command("say one two") {
        Err(CommandError::InvalidArguments(exec, message)) => {
            assert_eq!(exec.cmd, "say");
            assert_eq!(message, "The `say` command expects exactly one argument");
        }
        _ => panic!("expected invalid arguments"),
    }
    assert!(matches!(
        interpret_command("recall_memory"),
        Err(CommandError::InvalidArguments(_, _))
    ));
}

#[test]
fn command_echo_message() {
    let exec = parse_command("think \"hm\"").unwrap();
    let echo: ChatMessage = exec.into();
    assert_eq!(echo.get_content(), "COMMAND: think");
    assert_eq!(echo.get_tokens(), None);
}

#[test]
fn feedback_for_an_invalid_command_lists_the_commands() {
    let err = CommandError::InvalidCommand(String::from("dance"));
    let message = error_feedback(&err);
    assert_eq!(
        message.get_content(),
        "[error] You have entered an invalid command: `dance`. \
         Available commands: `say`, `think`, `save_memory`, `recall_memory`"
    );
}

#[test]
fn feedback_for_invalid_arguments_shows_the_usage() {
    let exec = CommandExec {
        cmd_line: String::from("say"),
        cmd: String::from("say"),
        args: Vec::new(),
    };
    let err = CommandError::InvalidArguments(
        exec,
        String::from("The `say` command expects exactly one argument"),
    );
    let message = error_feedback(&err);
    assert_eq!(
        message.get_content(),
        "[error] You have used the command `say` incorrectly. \
         The `say` command expects exactly one argument\n\
         Example usage: `say \"Hello, world!\"`"
    );
}

#[test]
fn feedback_for_format_and_empty_errors() {
    let format_err = error_feedback(&CommandError::CommandFormat(String::from("say \"x")));
    assert_eq!(
        format_err.get_content(),
        "[error] The command you entered could not be parsed. \
         Make sure you are using quotes and whitespace correctly."
    );
    let empty_err = error_feedback(&CommandError::EmptyCommand);
    assert_eq!(empty_err.get_content(), "[error] The command you entered was empty.");
}

#[test]
fn feedback_for_an_internal_error() {
    let exec = CommandExec {
        cmd_line: String::from("save_memory"),
        cmd: String::from("save_memory"),
        args: vec![String::from("x")],
    };
    let err = CommandError::InternalError(exec, String::from("Failed to save memory: disk full"));
    let message = error_feedback(&err);
    assert_eq!(
        message.get_content(),
        "[error] An internal error has occurred while executing the command `save_memory`. \
         Failed to save memory: disk full"
    );
}

#[test]
fn recall_report_lists_each_memory() {
    let memories = vec![String::from("I like apples."), String::from("The sky is blue.")];
    let report = recall_report(&memories);
    assert_eq!(
        report.get_content(),
        "[info] Recalled the following memories:\n- `I like apples.`\n- `The sky is blue.`"
    );
}

#[test]
fn recall_report_of_nothing_is_just_the_header() {
    let report = recall_report(&Vec::new());
    assert_eq!(report.get_content(), "[info] Recalled the following memories:\n");
}

#[test]
fn newest_memories_takes_the_tail_newest_first() {
    let store = vec![String::from("a"), String::from("b"), String::from("c")];
    assert_eq!(newest_memories(&store, 2), vec![String::from("c"), String::from("b")]);
    assert_eq!(
        newest_memories(&store, 10),
        vec![String::from("c"), String::from("b"), String::from("a")]
    );
    assert!(newest_memories(&store, 0).is_empty());
    assert!(newest_memories(&Vec::new(), 3).is_empty());
}

#[test]
fn plan_command_rejects_an_unknown_invocation() {
    let exec = CommandExec {
        cmd_line: String::from("jump"),
        cmd: String::from("jump"),
        args: Vec::new(),
    };
    assert!(matches!(plan_command(exec), Err(CommandError::InvalidCommand(_))));
}
