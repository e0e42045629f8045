use project_lily::action::MessageAction;
use project_lily::format::PromptFormat;
use project_lily::log::{recent_window, MessageLog};
use project_lily::message::ChatMessage;
use project_lily::severity::SystemMessageSeverity;

fn user(name: &str, text: &str, tokens: Option<usize>) -> ChatMessage {
    ChatMessage::User {
        username: String::from(name),
        content: String::from(text),
        tokens,
    }
}

#[test]
fn fresh_log_renders_the_placeholder_preamble() {
    let log = MessageLog::new();
    let format = PromptFormat::default();
    assert_eq!(log.format(&format), "### system\n[info] Pre-Prompt Placeholder\n");
}

#[test]
fn render_wraps_each_role_in_its_affixes() {
    let mut log = MessageLog::new();
    log.update_pre_prompt(String::from("sys"), 1);
    log.add_message(user("ada", "hello", Some(2)));
    log.add_message(ChatMessage::Assistant {
        action: MessageAction::Say,
        content: String::from("hi there"),
        tokens: Some(3),
    });
    let format = PromptFormat::default();
    assert_eq!(
        log.format(&format),
        "### system\n[info] sys\n### user\nada: hello\n### assistant\nSAY: hi there\n"
    );
}

#[test]
fn update_pre_prompt_replaces_exactly_slot_zero() {
    let mut log = MessageLog::new();
    log.add_message(user("ada", "one", Some(1)));
    log.add_message(user("ada", "two", Some(1)));
    let before = log.get_messages().len();
    log.update_pre_prompt(String::from("new preamble"), 5);
    let messages = log.get_messages();
    assert_eq!(messages.len(), before);
    assert_eq!(messages[0].get_content(), "[info] new preamble");
    assert_eq!(messages[1].get_content(), "ada: one");
    assert_eq!(messages[2].get_content(), "ada: two");
}

#[test]
fn clear_temp_is_idempotent_and_keeps_history() {
    let mut log = MessageLog::new();
    log.add_message(user("ada", "kept", Some(1)));
    log.add_temp_message(user("ada", "fleeting", None));
    assert_eq!(log.get_messages().len(), 3);
    log.clear_temp();
    assert_eq!(log.get_messages().len(), 2);
    log.clear_temp();
    assert_eq!(log.get_messages().len(), 2);
    assert_eq!(log.get_messages()[1].get_content(), "ada: kept");
}

#[test]
fn temp_messages_render_after_history_and_vanish() {
    let mut log = MessageLog::new();
    log.update_pre_prompt(String::from("sys"), 1);
    log.add_temp_message(ChatMessage::System {
        severity: SystemMessageSeverity::Error,
        content: String::from("bad command"),
        tokens: None,
    });
    let format = PromptFormat::default();
    assert_eq!(
        log.format(&format),
        "### system\n[info] sys\n### system\n[error] bad command\n"
    );
    log.clear_temp();
    assert_eq!(log.format(&format), "### system\n[info] sys\n");
}

#[test]
fn clear_log_keeps_only_the_preamble() {
    let mut log = MessageLog::new();
    log.update_pre_prompt(String::from("sys"), 1);
    log.add_message(user("ada", "one", Some(1)));
    log.add_temp_message(user("ada", "temp", None));
    log.clear_log();
    let messages = log.get_messages();
    assert_eq!(messages.len(), 1);
    assert_eq!(messages[0].get_content(), "[info] sys");
}

#[test]
fn recent_window_takes_the_fitting_suffix() {
    let history = vec![
        user("ada", "oldest", Some(4)),
        user("ada", "middle", Some(3)),
        user("ada", "newest", Some(2)),
    ];
    let window = recent_window(&history, 5);
    assert_eq!(window.len(), 2);
    assert_eq!(window[0].get_content(), "ada: middle");
    assert_eq!(window[1].get_content(), "ada: newest");
}

#[test]
fn recent_window_with_room_for_everything() {
    let history = vec![user("ada", "a", Some(1)), user("ada", "b", Some(1))];
    let window = recent_window(&history, 100);
    assert_eq!(window.len(), 2);
}

#[test]
fn recent_window_with_zero_budget_is_empty() {
    let history = vec![user("ada", "a", Some(1))];
    let window = recent_window(&history, 0);
    assert_eq!(window.len(), 0);
}

#[test]
fn recent_window_boundary_is_inclusive() {
    let history = vec![user("ada", "a", Some(4)), user("ada", "b", Some(6))];
    let window = recent_window(&history, 10);
    assert_eq!(window.len(), 2);
    let tighter = recent_window(&history, 9);
    assert_eq!(tighter.len(), 1);
    assert_eq!(tighter[0].get_content(), "ada: b");
}

#[test]
fn recent_window_counts_unannotated_messages_as_free() {
    let history = vec![user("ada", "a", Some(3)), user("ada", "b", None)];
    let window = recent_window(&history, 3);
    assert_eq!(window.len(), 2);
}

#[test]
fn recent_window_grows_with_the_budget() {
    let history = vec![
        user("ada", "a", Some(5)),
        user("ada", "b", Some(5)),
        user("ada", "c", Some(5)),
    ];
    let mut previous = 0;
    for budget in [0usize, 4, 5, 9, 10, 14, 15, 100] {
        let len = recent_window(&history, budget).len();
        assert!(len >= previous);
        previous = len;
    }
}

#[test]
fn empty_history_gives_empty_window() {
    let history: Vec<ChatMessage> = Vec::new();
    assert_eq!(recent_window(&history, 10).len(), 0);
}
