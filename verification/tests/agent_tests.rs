use project_lily::action::MessageAction;
use project_lily::agent::{response_is_blank, update_token_count, Agent};
use project_lily::message::ChatMessage;
use project_lily::preamble::render_preamble;
use project_lily::settings::AgentSettings;

fn test_settings() -> AgentSettings {
    AgentSettings {
        name: String::from("Lily"),
        creator: String::from("Ada"),
        persona: String::from("curious and kind"),
        directive: String::from("be helpful"),
    }
}

#[test]
fn blank_replies_are_transient() {
    assert!(response_is_blank(""));
    assert!(response_is_blank("   "));
    assert!(response_is_blank(" \t\r\n"));
    assert!(!response_is_blank("Hello"));
    assert!(!response_is_blank("  x  "));
}

#[test]
fn token_count_is_cached_exactly_once() {
    let mut message = ChatMessage::User {
        username: String::from("ada"),
        content: String::from("hi"),
        tokens: None,
    };
    update_token_count(&mut message, 7);
    assert_eq!(message.get_tokens(), Some(7));
    update_token_count(&mut message, 99);
    assert_eq!(message.get_tokens(), Some(7));
}

#[test]
fn first_tick_on_an_empty_log() {
    // Scenario: empty log, no inbound traffic, the model answers at once.
    let mut agent = Agent::new(test_settings());
    agent.update_system_prompt(String::from("sys"), 1);
    let mut external = agent.communication_manager.open_two_way_channel("bridge");

    let inbound = agent.communication_manager.receive_messages();
    assert!(inbound.is_empty());

    let turn = agent.prepare_turn();
    assert_eq!(turn.action, MessageAction::SituationalAnalysis);
    assert_eq!(
        turn.prompt,
        "### system\n[info] sys\n### assistant\nSITUATIONAL_ANALYSIS: "
    );
    assert_eq!(turn.grammar, r#"root ::= [^ \t\n] [^\t\n]* "\n""#);

    let reply = "The room is quiet.";
    assert!(!response_is_blank(reply));
    let mut message = agent.compose_response(turn.action, String::from(reply));
    update_token_count(&mut message, 5);
    let failures = agent.log_message(message);
    assert!(failures.is_empty());

    let logged = agent.log.get_messages();
    assert_eq!(logged.len(), 2);
    assert_eq!(logged[1].get_role(), "assistant");
    assert_eq!(logged[1].get_content(), "SITUATIONAL_ANALYSIS: The room is quiet.");

    let broadcast = external.receive_messages().unwrap();
    assert_eq!(broadcast.len(), 1);
    assert_eq!(broadcast[0].get_content(), "SITUATIONAL_ANALYSIS: The room is quiet.");
}

#[test]
fn empty_replies_are_retried_until_text_arrives() {
    // Scenario: the model answers blank twice, then speaks.
    let mut agent = Agent::new(test_settings());
    agent.update_system_prompt(String::from("sys"), 1);
    let turn = agent.prepare_turn();

    let scripted = ["", "", "Hello"];
    let mut invocations = 0;
    let mut accepted = None;
    for reply in &scripted {
        invocations += 1;
        if !response_is_blank(reply) {
            accepted = Some(String::from(*reply));
            break;
        }
    }
    assert_eq!(invocations, 3);
    let text = accepted.expect("the third reply is accepted");
    assert_eq!(text, "Hello");

    let mut message = agent.compose_response(turn.action, text);
    update_token_count(&mut message, 1);
    agent.log_message(message);
    let logged = agent.log.get_messages();
    assert_eq!(logged[logged.len() - 1].get_content(), "SITUATIONAL_ANALYSIS: Hello");
}

#[test]
fn inbound_messages_are_logged_before_the_reply() {
    let mut agent = Agent::new(test_settings());
    agent.update_system_prompt(String::from("sys"), 1);
    let external = agent.communication_manager.open_two_way_channel("bridge");
    external
        .send_message(ChatMessage::User {
            username: String::from("ada"),
            content: String::from("anyone there?"),
            tokens: None,
        })
        .unwrap();

    let inbound = agent.communication_manager.receive_messages();
    assert_eq!(inbound.len(), 1);
    for mut message in inbound {
        update_token_count(&mut message, 4);
        agent.log_message(message);
    }

    let turn = agent.prepare_turn();
    assert!(turn.prompt.contains("ada: anyone there?"));
    let mut reply = agent.compose_response(turn.action, String::from("Someone is."));
    update_token_count(&mut reply, 3);
    agent.log_message(reply);

    let logged = agent.log.get_messages();
    assert_eq!(logged[1].get_content(), "ada: anyone there?");
    assert_eq!(logged[2].get_content(), "SITUATIONAL_ANALYSIS: Someone is.");
}

#[test]
fn temporary_feedback_shows_once_and_is_never_persisted() {
    let mut agent = Agent::new(test_settings());
    agent.update_system_prompt(String::from("sys"), 1);
    agent.log_temp_message(ChatMessage::System {
        severity: project_lily::severity::SystemMessageSeverity::Error,
        content: String::from("bad command"),
        tokens: None,
    });
    let turn = agent.prepare_turn();
    assert!(turn.prompt.contains("[error] bad command"));
    agent.log.clear_temp();
    let turn = agent.prepare_turn();
    assert!(!turn.prompt.contains("bad command"));
}

#[test]
fn a_failed_command_is_reported_once_then_forgotten() {
    let mut agent = Agent::new(test_settings());
    agent.update_system_prompt(String::from("sys"), 1);
    let err = project_lily::commands::interpret_command("dance").unwrap_err();
    agent.report_command_failure("dance", &err);
    let turn = agent.prepare_turn();
    assert!(turn.prompt.contains("COMMAND: dance"));
    assert!(turn.prompt.contains("You have entered an invalid command: `dance`"));
    agent.log.clear_temp();
    let turn = agent.prepare_turn();
    assert!(!turn.prompt.contains("invalid command"));
    assert_eq!(agent.log.get_messages().len(), 1);
}

#[test]
fn rendered_preamble_substitutes_the_identity() {
    let preamble = render_preamble(&test_settings(), "2024-06-01");
    assert!(preamble.contains("Current Date: 2024-06-01"));
    assert!(preamble.contains("You are Lily, an experimental AI"));
    assert!(preamble.contains("created by Ada"));
    assert!(preamble.contains("curious and kind"));
    assert!(preamble.contains("# Primary Directive\nbe helpful"));
    assert!(preamble.contains("- SAY:"));
    assert!(preamble.contains("ONLY state"));
    assert!(!preamble.contains("{ai_name}"));
    assert!(!preamble.contains("{action_states}"));
    assert!(preamble.contains("# Active Memory Context\nEMPTY"));
}

#[test]
fn preamble_installs_into_slot_zero() {
    let mut agent = Agent::new(test_settings());
    let preamble = render_preamble(&test_settings(), "2024-06-01");
    agent.update_system_prompt(preamble.clone(), 42);
    let logged = agent.log.get_messages();
    assert_eq!(logged.len(), 1);
    assert_eq!(logged[0].get_tokens(), Some(42));
    assert!(logged[0].get_content().contains("You are Lily"));
}
