use project_lily::action::{MessageAction, QueryAnswers};
use project_lily::statemachine::ProcessStateMachine;

#[test]
fn first_action_is_situational_analysis() {
    let mut machine = ProcessStateMachine::new();
    assert!(machine.last_action().is_none());
    let action = machine.next_action();
    assert_eq!(action, MessageAction::SituationalAnalysis);
    assert_eq!(machine.last_action(), Some(&MessageAction::SituationalAnalysis));
}

#[test]
fn cycle_emits_the_nine_states_in_order() {
    let mut machine = ProcessStateMachine::new();
    let expected = [
        MessageAction::SituationalAnalysis,
        MessageAction::EmotionalResponse,
        MessageAction::LogicalResponse,
        MessageAction::ProblemIdentification,
        MessageAction::GoalIdentification,
        MessageAction::ProblemSolving,
        MessageAction::EmotionalState,
        MessageAction::Command,
        MessageAction::Say,
    ];
    for want in &expected {
        assert_eq!(&machine.next_action(), want);
    }
}

#[test]
fn cycle_repeats_with_period_nine() {
    let mut machine = ProcessStateMachine::new();
    let mut first_round = Vec::new();
    for _ in 0..9 {
        first_round.push(machine.next_action());
    }
    for i in 0..18 {
        assert_eq!(machine.next_action(), first_round[i % 9]);
    }
}

#[test]
fn query_always_returns_to_situational_analysis() {
    let mut machine = ProcessStateMachine::new();
    for _ in 0..5 {
        machine.next_action();
    }
    machine.set_action(MessageAction::Query {
        question: Some(String::from("Should I continue?")),
        answers: QueryAnswers::Boolean,
    });
    assert_eq!(machine.next_action(), MessageAction::SituationalAnalysis);
    assert_eq!(machine.next_action(), MessageAction::EmotionalResponse);
}

#[test]
fn default_machine_starts_fresh() {
    let mut machine = ProcessStateMachine::default();
    assert!(machine.last_action().is_none());
    assert_eq!(machine.next_action(), MessageAction::SituationalAnalysis);
}
