use project_lily::action::{MessageAction, QueryAnswers};

#[test]
fn action_names() {
    assert_eq!(MessageAction::SituationalAnalysis.name(), "SITUATIONAL_ANALYSIS");
    assert_eq!(MessageAction::EmotionalResponse.name(), "EMOTIONAL_RESPONSE");
    assert_eq!(MessageAction::LogicalResponse.name(), "LOGICAL_RESPONSE");
    assert_eq!(MessageAction::ProblemIdentification.name(), "PROBLEM_IDENTIFICATION");
    assert_eq!(MessageAction::GoalIdentification.name(), "GOAL_IDENTIFICATION");
    assert_eq!(MessageAction::ProblemSolving.name(), "PROBLEM_SOLVING");
    assert_eq!(MessageAction::EmotionalState.name(), "EMOTIONAL_STATE");
    assert_eq!(MessageAction::Command.name(), "COMMAND");
    assert_eq!(MessageAction::Say.name(), "SAY");
    let query = MessageAction::Query { question: None, answers: QueryAnswers::Boolean };
    assert_eq!(query.name(), "QUERY");
}

#[test]
fn prompt_prefix_of_a_plain_action() {
    assert_eq!(MessageAction::Say.as_prompt(), "SAY: ");
    assert_eq!(MessageAction::Command.as_prompt(), "COMMAND: ");
}

#[test]
fn prompt_prefix_of_a_query_includes_the_question() {
    let query = MessageAction::Query {
        question: Some(String::from("Is the sky blue?")),
        answers: QueryAnswers::Boolean,
    };
    assert_eq!(query.as_prompt(), "QUERY: Is the sky blue?\nANSWER: ");
}

#[test]
fn prompt_prefix_of_a_query_without_question() {
    let query = MessageAction::Query { question: None, answers: QueryAnswers::Boolean };
    assert_eq!(query.as_prompt(), "QUERY: \nANSWER: ");
}

#[test]
fn grammar_of_plain_actions_is_one_line() {
    assert_eq!(
        MessageAction::SituationalAnalysis.as_grammar(),
        r#"root ::= [^ \t\n] [^\t\n]* "\n""#
    );
}

#[test]
fn grammar_of_query_answers() {
    assert_eq!(QueryAnswers::FreeText.as_grammar(), r#"root ::= [^\n]+ "\n""#);
    assert_eq!(QueryAnswers::Boolean.as_grammar(), r#"root ::= ("Yes" | "No") "\n""#);
    assert_eq!(QueryAnswers::Number.as_grammar(), r#"root ::= [0-9]+ "\n""#);
}

#[test]
fn grammar_of_literal_answers_joins_quoted_members() {
    let answers = QueryAnswers::Literals(vec![
        String::from("red"),
        String::from("green"),
        String::from("blue"),
    ]);
    assert_eq!(answers.as_grammar(), r#"root ::= ("red" | "green" | "blue") "\n""#);
}

#[test]
fn grammar_of_a_single_literal() {
    let answers = QueryAnswers::Literals(vec![String::from("ok")]);
    assert_eq!(answers.as_grammar(), r#"root ::= ("ok") "\n""#);
}

#[test]
fn grammar_of_no_literals() {
    let answers = QueryAnswers::Literals(Vec::new());
    assert_eq!(answers.as_grammar(), r#"root ::= () "\n""#);
}

#[test]
fn query_grammar_comes_from_its_answers() {
    let query = MessageAction::Query {
        question: Some(String::from("How many?")),
        answers: QueryAnswers::Number,
    };
    assert_eq!(query.as_grammar(), r#"root ::= [0-9]+ "\n""#);
}

#[test]
fn explanations_mention_the_state_purpose() {
    assert!(MessageAction::Say.get_explanation().contains("ONLY state"));
    assert!(MessageAction::Command.get_explanation().contains("interpreter"));
}

#[test]
fn all_lists_every_action_once() {
    let all = MessageAction::all();
    assert_eq!(all.len(), 10);
    assert_eq!(all[1], MessageAction::SituationalAnalysis);
    assert_eq!(all[9], MessageAction::Say);
    assert!(matches!(all[0], MessageAction::Query { .. }));
}

#[test]
fn action_labels_round_trip() {
    for action in MessageAction::all() {
        let parsed = MessageAction::from_name(action.name()).unwrap();
        assert_eq!(parsed.name(), action.name());
    }
    assert_eq!(
        MessageAction::from_name("SAY"),
        Some(MessageAction::Say)
    );
    assert_eq!(MessageAction::from_name("WALTZ"), None);
    assert_eq!(MessageAction::from_name("say"), None);
}

#[test]
fn cloned_action_equals_original() {
    let query = MessageAction::Query {
        question: Some(String::from("what?")),
        answers: QueryAnswers::Literals(vec![String::from("a"), String::from("b")]),
    };
    assert_eq!(query.clone(), query);
    assert_eq!(MessageAction::Say.clone(), MessageAction::Say);
}
