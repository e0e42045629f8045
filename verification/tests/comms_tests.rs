use project_lily::comms::CommunicationManager;
use project_lily::message::ChatMessage;
use project_lily::severity::SystemMessageSeverity;

fn note(text: &str) -> ChatMessage {
    ChatMessage::System {
        severity: SystemMessageSeverity::Info,
        content: String::from(text),
        tokens: Some(1),
    }
}

#[test]
fn channel_names_follow_the_convention() {
    let mut manager = CommunicationManager::new();
    let external = manager.open_two_way_channel("discord");
    assert_eq!(external.get_name(), "discord_external");
    let sender = manager.open_incoming_channel("cli");
    assert_eq!(sender.get_name(), "cli_receiver");
    let receiver = manager.open_outgoing_channel("monitor");
    assert_eq!(receiver.get_name(), "monitor_sender");
}

#[test]
fn drain_returns_buffered_messages() {
    let mut manager = CommunicationManager::new();
    let external = manager.open_two_way_channel("bridge");
    external.send_message(note("hello")).unwrap();
    let drained = manager.receive_messages();
    assert_eq!(drained.len(), 1);
    assert_eq!(drained[0].get_content(), "[info] hello");
}

#[test]
fn drain_twice_returns_nothing_the_second_time() {
    let mut manager = CommunicationManager::new();
    let external = manager.open_two_way_channel("bridge");
    external.send_message(note("once")).unwrap();
    let first = manager.receive_messages();
    assert_eq!(first.len(), 1);
    let second = manager.receive_messages();
    assert_eq!(second.len(), 0);
}

#[test]
fn drain_preserves_per_channel_order_across_drains() {
    let mut manager = CommunicationManager::new();
    let external = manager.open_two_way_channel("bridge");
    external.send_message(note("first")).unwrap();
    external.send_message(note("second")).unwrap();
    let drained = manager.receive_messages();
    assert_eq!(drained[0].get_content(), "[info] first");
    assert_eq!(drained[1].get_content(), "[info] second");
    external.send_message(note("third")).unwrap();
    let later = manager.receive_messages();
    assert_eq!(later.len(), 1);
    assert_eq!(later[0].get_content(), "[info] third");
}

#[test]
fn drain_merges_two_channels_keeping_each_in_order() {
    let mut manager = CommunicationManager::new();
    let alpha = manager.open_two_way_channel("alpha");
    let beta = manager.open_two_way_channel("beta");
    alpha.send_message(note("a1")).unwrap();
    alpha.send_message(note("a2")).unwrap();
    beta.send_message(note("b1")).unwrap();
    let drained = manager.receive_messages();
    assert_eq!(drained.len(), 3);
    let contents: Vec<String> = drained.iter().map(|m| m.get_content()).collect();
    let a1 = contents.iter().position(|c| c == "[info] a1").unwrap();
    let a2 = contents.iter().position(|c| c == "[info] a2").unwrap();
    assert!(contents.contains(&String::from("[info] b1")));
    assert!(a1 < a2);
}

#[test]
fn broadcast_reaches_every_open_channel_despite_a_closed_one() {
    let mut manager = CommunicationManager::new();
    let mut listener = manager.open_two_way_channel("listener");
    let dead = manager.open_outgoing_channel("dead");
    drop(dead);
    let failures = manager.send_message(&note("to everyone"));
    assert_eq!(failures, vec![String::from("dead_receiver")]);
    let received = listener.receive_messages().unwrap();
    assert_eq!(received.len(), 1);
    assert_eq!(received[0].get_content(), "[info] to everyone");
}

#[test]
fn broadcast_with_no_channels_reports_nothing() {
    let manager = CommunicationManager::new();
    let failures = manager.send_message(&note("void"));
    assert!(failures.is_empty());
}

#[test]
fn drain_of_an_empty_router_returns_nothing() {
    let mut manager = CommunicationManager::new();
    assert!(manager.receive_messages().is_empty());
}

#[test]
fn a_full_channel_refuses_without_blocking() {
    let mut manager = CommunicationManager::new();
    let external = manager.open_two_way_channel("busy");
    for i in 0..64 {
        external.send_message(note(&format!("m{}", i))).unwrap();
    }
    assert!(external.send_message(note("overflow")).is_err());
    let drained = manager.receive_messages();
    assert_eq!(drained.len(), 64);
    assert_eq!(drained[0].get_content(), "[info] m0");
    assert_eq!(drained[63].get_content(), "[info] m63");
    external.send_message(note("after the drain")).unwrap();
    assert_eq!(manager.receive_messages().len(), 1);
}

#[test]
fn broadcast_reports_failures_in_registration_order() {
    let mut manager = CommunicationManager::new();
    let first = manager.open_outgoing_channel("first");
    let _kept = manager.open_two_way_channel("kept");
    let second = manager.open_outgoing_channel("second");
    drop(first);
    drop(second);
    let failures = manager.send_message(&note("fan out"));
    assert_eq!(
        failures,
        vec![String::from("first_receiver"), String::from("second_receiver")]
    );
}

#[test]
fn a_closed_inbound_channel_is_skipped_not_fatal() {
    let mut manager = CommunicationManager::new();
    let gone = manager.open_incoming_channel("gone");
    drop(gone);
    let alive = manager.open_incoming_channel("alive");
    alive.send_message(note("still here")).unwrap();
    let drained = manager.receive_messages();
    assert_eq!(drained.len(), 1);
    assert_eq!(drained[0].get_content(), "[info] still here");
}

#[test]
fn outgoing_channel_delivers_to_its_external_receiver() {
    let mut manager = CommunicationManager::new();
    let mut external = manager.open_outgoing_channel("monitor");
    let failures = manager.send_message(&note("status"));
    assert!(failures.is_empty());
    let received = external.receive_messages().unwrap();
    assert_eq!(received.len(), 1);
    assert_eq!(received[0].get_content(), "[info] status");
}

#[test]
fn two_way_channel_carries_both_directions() {
    let mut manager = CommunicationManager::new();
    let mut external = manager.open_two_way_channel("duplex");
    external.send_message(note("inbound")).unwrap();
    assert_eq!(manager.receive_messages().len(), 1);
    manager.send_message(&note("outbound"));
    let received = external.receive_messages().unwrap();
    assert_eq!(received.len(), 1);
    assert_eq!(received[0].get_content(), "[info] outbound");
}
