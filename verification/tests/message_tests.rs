use project_lily::action::MessageAction;
use project_lily::format::PromptFormat;
use project_lily::llm::{LLMError, LlamaCppServer};
use project_lily::message::ChatMessage;
use project_lily::severity::SystemMessageSeverity;
use project_lily::subprocess::Subprocess;

#[test]
fn severity_names_round_trip() {
    for severity in [
        SystemMessageSeverity::Debug,
        SystemMessageSeverity::Info,
        SystemMessageSeverity::Warn,
        SystemMessageSeverity::Error,
    ] {
        assert_eq!(SystemMessageSeverity::from_name(severity.name()), Some(severity));
    }
    assert_eq!(SystemMessageSeverity::from_name("fatal"), None);
    assert_eq!(SystemMessageSeverity::from_name("Info"), None);
}

#[test]
fn roles_of_each_message_kind() {
    let system = ChatMessage::System {
        severity: SystemMessageSeverity::Info,
        content: String::from("x"),
        tokens: None,
    };
    let user = ChatMessage::User {
        username: String::from("ada"),
        content: String::from("x"),
        tokens: None,
    };
    let assistant = ChatMessage::Assistant {
        action: MessageAction::Say,
        content: String::from("x"),
        tokens: None,
    };
    assert_eq!(system.get_role(), "system");
    assert_eq!(user.get_role(), "user");
    assert_eq!(assistant.get_role(), "assistant");
}

#[test]
fn content_lines_carry_the_origin() {
    let system = ChatMessage::System {
        severity: SystemMessageSeverity::Warn,
        content: String::from("low disk"),
        tokens: None,
    };
    assert_eq!(system.get_content(), "[warn] low disk");
    let user = ChatMessage::User {
        username: String::from("ada"),
        content: String::from("hello"),
        tokens: None,
    };
    assert_eq!(user.get_content(), "ada: hello");
    let assistant = ChatMessage::Assistant {
        action: MessageAction::EmotionalResponse,
        content: String::from("glad to see you"),
        tokens: None,
    };
    assert_eq!(assistant.get_content(), "EMOTIONAL_RESPONSE: glad to see you");
}

#[test]
fn format_wraps_the_content_in_role_affixes() {
    let format = PromptFormat::default();
    let user = ChatMessage::User {
        username: String::from("ada"),
        content: String::from("hi"),
        tokens: None,
    };
    assert_eq!(user.format(&format), "### user\nada: hi\n");
}

#[test]
fn tokens_start_unset_and_stick_once_set() {
    let mut message = ChatMessage::System {
        severity: SystemMessageSeverity::Debug,
        content: String::from("x"),
        tokens: None,
    };
    assert_eq!(message.get_tokens(), None);
    message.set_tokens(11);
    assert_eq!(message.get_tokens(), Some(11));
    assert_eq!(message.get_content(), "[debug] x");
}

#[test]
fn cloned_message_equals_original() {
    let message = ChatMessage::User {
        username: String::from("ada"),
        content: String::from("hello"),
        tokens: Some(2),
    };
    assert_eq!(message.clone(), message);
}

#[test]
fn llm_error_descriptions() {
    assert_eq!(LLMError::FailedToAccessServer.describe(), "Failed to access server");
    assert_eq!(LLMError::ModelNotLoaded.describe(), "Failed load the language model");
    assert_eq!(
        LLMError::JsonParseError { json: String::from("{oops") }.describe(),
        "Failed to parse JSON response:\n===\n{oops\n==="
    );
    assert_eq!(
        LLMError::UnexpectedServerState(String::from("warming_up")).describe(),
        "Server health returned within an unexpected state: warming_up"
    );
}

#[test]
fn llama_cpp_server_endpoints() {
    let server = LlamaCppServer::default();
    assert_eq!(server.url, "http://localhost:8080");
    assert_eq!(server.health_url(), "http://localhost:8080/health");
    assert_eq!(server.completion_url(), "http://localhost:8080/completion");
    assert_eq!(server.tokenize_url(), "http://localhost:8080/tokenize");
    let other = LlamaCppServer::new(String::from("http://10.0.0.2:9000"));
    assert_eq!(other.tokenize_url(), "http://10.0.0.2:9000/tokenize");
}

#[test]
fn subprocess_names() {
    assert_eq!(Subprocess::InnerMonologue.name(), "inner-monologue");
    assert_eq!(Subprocess::PublicSpeaker.name(), "public-speaker");
}
