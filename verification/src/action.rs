//! The cognitive action states the agent cycles through, together with the
//! prompt prefix and output grammar attached to each state.

use vstd::prelude::*;
use vstd::string::StringExecFns;

verus! {

/// One cognitive action state. `Query` is special: it is never produced by
/// the normal cycle and carries its own question and answer constraint.
#[derive(Debug, PartialEq, Eq, Hash)]
pub enum MessageAction {
    Query { question: Option<String>, answers: QueryAnswers },
    SituationalAnalysis,
    EmotionalResponse,
    LogicalResponse,
    ProblemIdentification,
    GoalIdentification,
    ProblemSolving,
    EmotionalState,
    Command,
    Say,
}

/// The constraint on the answer the model may give to a query.
#[derive(Debug, PartialEq, Eq, Hash)]
pub enum QueryAnswers {
    /// The answer must be one of a fixed set of literal strings.
    Literals(Vec<String>),
    /// Any single line of text.
    FreeText,
    /// `Yes` or `No`.
    Boolean,
    /// A digit string.
    Number,
}

/// The mathematical model of an action state.
pub ghost enum ActionView {
    Query { question: Option<Seq<char>>, answers: QueryAnswersView },
    SituationalAnalysis,
    EmotionalResponse,
    LogicalResponse,
    ProblemIdentification,
    GoalIdentification,
    ProblemSolving,
    EmotionalState,
    Command,
    Say,
}

/// The mathematical model of an answer constraint.
pub ghost enum QueryAnswersView {
    Literals(Seq<Seq<char>>),
    FreeText,
    Boolean,
    Number,
}

impl View for MessageAction {
    type V = ActionView;

    open spec fn view(&self) -> ActionView {
        match self {
            MessageAction::Query { question, answers } => ActionView::Query {
                question: match question {
                    Option::Some(q) => Option::Some(q@),
                    Option::None => Option::None,
                },
                answers: answers@,
            },
            MessageAction::SituationalAnalysis => ActionView::SituationalAnalysis,
            MessageAction::EmotionalResponse => ActionView::EmotionalResponse,
            MessageAction::LogicalResponse => ActionView::LogicalResponse,
            MessageAction::ProblemIdentification => ActionView::ProblemIdentification,
            MessageAction::GoalIdentification => ActionView::GoalIdentification,
            MessageAction::ProblemSolving => ActionView::ProblemSolving,
            MessageAction::EmotionalState => ActionView::EmotionalState,
            MessageAction::Command => ActionView::Command,
            MessageAction::Say => ActionView::Say,
        }
    }
}

impl View for QueryAnswers {
    type V = QueryAnswersView;

    open spec fn view(&self) -> QueryAnswersView {
        match self {
            QueryAnswers::Literals(answers) => QueryAnswersView::Literals(answers.deep_view()),
            QueryAnswers::FreeText => QueryAnswersView::FreeText,
            QueryAnswers::Boolean => QueryAnswersView::Boolean,
            QueryAnswers::Number => QueryAnswersView::Number,
        }
    }
}

/// The action whose label is `s`, if any: the specification of `from_name`.
/// The label of a query carries neither its question nor its answer
/// constraint, so `QUERY` stands for the bare boolean query.
pub open spec fn action_of_name(s: Seq<char>) -> Option<ActionView> {
    if s == "QUERY"@ {
        Some(
            ActionView::Query { question: Option::None, answers: QueryAnswersView::Boolean },
        )
    } else if s == "SITUATIONAL_ANALYSIS"@ {
        Some(ActionView::SituationalAnalysis)
    } else if s == "EMOTIONAL_RESPONSE"@ {
        Some(ActionView::EmotionalResponse)
    } else if s == "LOGICAL_RESPONSE"@ {
        Some(ActionView::LogicalResponse)
    } else if s == "PROBLEM_IDENTIFICATION"@ {
        Some(ActionView::ProblemIdentification)
    } else if s == "GOAL_IDENTIFICATION"@ {
        Some(ActionView::GoalIdentification)
    } else if s == "PROBLEM_SOLVING"@ {
        Some(ActionView::ProblemSolving)
    } else if s == "EMOTIONAL_STATE"@ {
        Some(ActionView::EmotionalState)
    } else if s == "COMMAND"@ {
        Some(ActionView::Command)
    } else if s == "SAY"@ {
        Some(ActionView::Say)
    } else {
        None
    }
}

/// Parsing an action's own label yields that action back, except that a
/// query's question and answer constraint are not part of the label: every
/// query loads back as the bare boolean query.
pub proof fn lemma_action_label_round_trip(a: ActionView)
    ensures
        !(a is Query) ==> action_of_name(a.name()) == Some(a),
        a is Query ==> action_of_name(a.name()) == Some(
            ActionView::Query { question: Option::None, answers: QueryAnswersView::Boolean },
        ),
{
    reveal_strlit("QUERY");
    reveal_strlit("SITUATIONAL_ANALYSIS");
    reveal_strlit("EMOTIONAL_RESPONSE");
    reveal_strlit("LOGICAL_RESPONSE");
    reveal_strlit("PROBLEM_IDENTIFICATION");
    reveal_strlit("GOAL_IDENTIFICATION");
    reveal_strlit("PROBLEM_SOLVING");
    reveal_strlit("EMOTIONAL_STATE");
    reveal_strlit("COMMAND");
    reveal_strlit("SAY");
    assert("QUERY"@.len() == 5);
    assert("SITUATIONAL_ANALYSIS"@.len() == 20);
    assert("EMOTIONAL_RESPONSE"@.len() == 18);
    assert("LOGICAL_RESPONSE"@.len() == 16);
    assert("PROBLEM_IDENTIFICATION"@.len() == 22);
    assert("GOAL_IDENTIFICATION"@.len() == 19);
    assert("PROBLEM_SOLVING"@.len() == 15);
    assert("EMOTIONAL_STATE"@.len() == 15);
    assert("COMMAND"@.len() == 7);
    assert("SAY"@.len() == 3);
    assert("PROBLEM_SOLVING"@[0] == 'P');
    assert("EMOTIONAL_STATE"@[0] == 'E');
}

/// The grammar used for every non-query action: one non-empty line of text.
pub open spec fn spec_line_grammar() -> Seq<char> {
    r#"root ::= [^ \t\n] [^\t\n]* "\n""#@
}

/// A literal answer wrapped in double quotes.
pub open spec fn spec_quoted(s: Seq<char>) -> Seq<char> {
    seq!['"'] + s + seq!['"']
}

/// The quoted literals joined by ` | `, in order.
pub open spec fn spec_join_quoted(items: Seq<Seq<char>>) -> Seq<char>
    decreases items.len(),
{
    if items.len() == 0 {
        Seq::empty()
    } else if items.len() == 1 {
        spec_quoted(items[0])
    } else {
        spec_join_quoted(items.drop_last()) + " | "@ + spec_quoted(items.last())
    }
}

impl ActionView {
    /// The upper-case label of each action.
    pub open spec fn name(self) -> Seq<char> {
        match self {
            ActionView::Query { .. } => "QUERY"@,
            ActionView::SituationalAnalysis => "SITUATIONAL_ANALYSIS"@,
            ActionView::EmotionalResponse => "EMOTIONAL_RESPONSE"@,
            ActionView::LogicalResponse => "LOGICAL_RESPONSE"@,
            ActionView::ProblemIdentification => "PROBLEM_IDENTIFICATION"@,
            ActionView::GoalIdentification => "GOAL_IDENTIFICATION"@,
            ActionView::ProblemSolving => "PROBLEM_SOLVING"@,
            ActionView::EmotionalState => "EMOTIONAL_STATE"@,
            ActionView::Command => "COMMAND"@,
            ActionView::Say => "SAY"@,
        }
    }

    /// The prompt prefix each action contributes just before the model is
    /// invoked.
    pub open spec fn prompt_prefix(self) -> Seq<char> {
        match self {
            ActionView::Query { question, .. } => "QUERY: "@ + (match question {
                Option::Some(q) => q,
                Option::None => Seq::empty(),
            }) + "\nANSWER: "@,
            _ => self.name() + ": "@,
        }
    }

    /// The output grammar attached to each action.
    pub open spec fn grammar(self) -> Seq<char> {
        match self {
            ActionView::Query { answers, .. } => answers.grammar(),
            _ => spec_line_grammar(),
        }
    }

    /// What each action asks of the model.
    pub open spec fn explanation(self) -> Seq<char> {
        match self {
            ActionView::Query { .. } => "When in this state, you will ask yourself a question, where your answer is used to determine your next action state."@,
            ActionView::SituationalAnalysis => "When in this state, your goal is to analyze the current situation and observe as much information as possible about your current situation, especially the most recent events and messages."@,
            ActionView::EmotionalResponse => "When in this state, try and respond emotionally to the current situation, if needed."@,
            ActionView::LogicalResponse => "When in this state, try and respond logically to the current situation, if needed."@,
            ActionView::ProblemIdentification => "Analyze your logical and emotional responses to identify if there is currently a potential problem, and what that problem is. This state only identifies problems, it does not solve them."@,
            ActionView::GoalIdentification => "When in this state, identity the problem you are trying to solve, and define what your goal is. You do not need to determine how to solve the problem, just what the goal is. If there is no problem, then your goal may be assigned to any goal you wish to achieve."@,
            ActionView::ProblemSolving => "When in this state, try and think of solutions to approach your current specified goal. Come up with as many solutions as is practical, and then determine which solution is the best."@,
            ActionView::EmotionalState => "Analyze your emotional response, as well as ALL PAST emotional responses and emotional states to identify your current emotional state."@,
            ActionView::Command => "When in this state, you may send a command, using natural language, to the interpreter, which will then be executed if possible."@,
            ActionView::Say => "When in this state, you may say something, using natural language, to the user. This is the ONLY state where you may directly communicate with the user."@,
        }
    }
}

impl QueryAnswersView {
    /// The grammar of each answer constraint. A literal set becomes an
    /// alternation of its quoted members, in order.
    pub open spec fn grammar(self) -> Seq<char> {
        match self {
            QueryAnswersView::Literals(answers) => r#"root ::= ("#@ + spec_join_quoted(answers)
                + r#") "\n""#@,
            QueryAnswersView::FreeText => r#"root ::= [^\n]+ "\n""#@,
            QueryAnswersView::Boolean => r#"root ::= ("Yes" | "No") "\n""#@,
            QueryAnswersView::Number => r#"root ::= [0-9]+ "\n""#@,
        }
    }
}

impl MessageAction {
    /// The upper-case label of this action, as rendered and persisted.
    pub fn name(&self) -> (r: &'static str)
        ensures
            r@ == self@.name(),
    {
        match self {
            MessageAction::Query { .. } => "QUERY",
            MessageAction::SituationalAnalysis => "SITUATIONAL_ANALYSIS",
            MessageAction::EmotionalResponse => "EMOTIONAL_RESPONSE",
            MessageAction::LogicalResponse => "LOGICAL_RESPONSE",
            MessageAction::ProblemIdentification => "PROBLEM_IDENTIFICATION",
            MessageAction::GoalIdentification => "GOAL_IDENTIFICATION",
            MessageAction::ProblemSolving => "PROBLEM_SOLVING",
            MessageAction::EmotionalState => "EMOTIONAL_STATE",
            MessageAction::Command => "COMMAND",
            MessageAction::Say => "SAY",
        }
    }

    /// Renders the prompt prefix for this action: the question followed by an
    /// answer cue for a query, otherwise the action label followed by `: `.
    pub fn as_prompt(&self) -> (r: String)
        ensures
            r@ == self@.prompt_prefix(),
    {
        match self {
            MessageAction::Query { question, .. } => {
                let mut s = String::from_str("QUERY: ");
                match question {
                    Option::Some(q) => s.append(q.as_str()),
                    Option::None => (),
                }
                s.append("\nANSWER: ");
                assert(s@ =~= self@.prompt_prefix());
                s
            }
            _ => {
                let mut s = String::from_str(self.name());
                s.append(": ");
                s
            }
        }
    }

    /// The grammar constraining the model's next response: the query's answer
    /// grammar when querying, otherwise one non-empty line of text.
    pub fn as_grammar(&self) -> (r: String)
        ensures
            r@ == self@.grammar(),
    {
        match self {
            MessageAction::Query { answers, .. } => answers.as_grammar(),
            _ => String::from_str(r#"root ::= [^ \t\n] [^\t\n]* "\n""#),
        }
    }

    /// The sentence shown to the model explaining what this action state asks
    /// of it.
    pub fn get_explanation(&self) -> (r: &str)
        ensures
            r@ == self@.explanation(),
    {
        match self {
            MessageAction::Query { .. } => "When in this state, you will ask yourself a question, where your answer is used to determine your next action state.",
            MessageAction::SituationalAnalysis => "When in this state, your goal is to analyze the current situation and observe as much information as possible about your current situation, especially the most recent events and messages.",
            MessageAction::EmotionalResponse => "When in this state, try and respond emotionally to the current situation, if needed.",
            MessageAction::LogicalResponse => "When in this state, try and respond logically to the current situation, if needed.",
            MessageAction::ProblemIdentification => "Analyze your logical and emotional responses to identify if there is currently a potential problem, and what that problem is. This state only identifies problems, it does not solve them.",
            MessageAction::GoalIdentification => "When in this state, identity the problem you are trying to solve, and define what your goal is. You do not need to determine how to solve the problem, just what the goal is. If there is no problem, then your goal may be assigned to any goal you wish to achieve.",
            MessageAction::ProblemSolving => "When in this state, try and think of solutions to approach your current specified goal. Come up with as many solutions as is practical, and then determine which solution is the best.",
            MessageAction::EmotionalState => "Analyze your emotional response, as well as ALL PAST emotional responses and emotional states to identify your current emotional state.",
            MessageAction::Command => "When in this state, you may send a command, using natural language, to the interpreter, which will then be executed if possible.",
            MessageAction::Say => "When in this state, you may say something, using natural language, to the user. This is the ONLY state where you may directly communicate with the user.",
        }
    }

    /// Parses a persisted action label back into an action: the inverse of
    /// `name`. A query's question and answer constraint are not part of the
    /// label, so `QUERY` comes back as a bare boolean query.
    pub fn from_name(s: &str) -> (r: Option<MessageAction>)
        ensures
            r matches Some(a) ==> s@ == a@.name(),
            r is None ==> action_of_name(s@) is None,
            r matches Some(a) ==> action_of_name(s@) == Some(a@),
    {
        if crate::severity::str_eq(s, "QUERY") {
            Some(MessageAction::Query { question: Option::None, answers: QueryAnswers::Boolean })
        } else if crate::severity::str_eq(s, "SITUATIONAL_ANALYSIS") {
            Some(MessageAction::SituationalAnalysis)
        } else if crate::severity::str_eq(s, "EMOTIONAL_RESPONSE") {
            Some(MessageAction::EmotionalResponse)
        } else if crate::severity::str_eq(s, "LOGICAL_RESPONSE") {
            Some(MessageAction::LogicalResponse)
        } else if crate::severity::str_eq(s, "PROBLEM_IDENTIFICATION") {
            Some(MessageAction::ProblemIdentification)
        } else if crate::severity::str_eq(s, "GOAL_IDENTIFICATION") {
            Some(MessageAction::GoalIdentification)
        } else if crate::severity::str_eq(s, "PROBLEM_SOLVING") {
            Some(MessageAction::ProblemSolving)
        } else if crate::severity::str_eq(s, "EMOTIONAL_STATE") {
            Some(MessageAction::EmotionalState)
        } else if crate::severity::str_eq(s, "COMMAND") {
            Some(MessageAction::Command)
        } else if crate::severity::str_eq(s, "SAY") {
            Some(MessageAction::Say)
        } else {
            None
        }
    }

    /// One representative of every action state, in presentation order.
    pub fn all() -> (r: Vec<MessageAction>)
        ensures
            r@.len() == 10,
            r@[0]@ == (ActionView::Query {
                question: Option::None,
                answers: QueryAnswersView::Boolean,
            }),
            r@[1]@ == ActionView::SituationalAnalysis,
            r@[2]@ == ActionView::EmotionalResponse,
            r@[3]@ == ActionView::LogicalResponse,
            r@[4]@ == ActionView::ProblemIdentification,
            r@[5]@ == ActionView::GoalIdentification,
            r@[6]@ == ActionView::ProblemSolving,
            r@[7]@ == ActionView::EmotionalState,
            r@[8]@ == ActionView::Command,
            r@[9]@ == ActionView::Say,
    {
        let mut r: Vec<MessageAction> = Vec::new();
        r.push(MessageAction::Query { question: Option::None, answers: QueryAnswers::Boolean });
        r.push(MessageAction::SituationalAnalysis);
        r.push(MessageAction::EmotionalResponse);
        r.push(MessageAction::LogicalResponse);
        r.push(MessageAction::ProblemIdentification);
        r.push(MessageAction::GoalIdentification);
        r.push(MessageAction::ProblemSolving);
        r.push(MessageAction::EmotionalState);
        r.push(MessageAction::Command);
        r.push(MessageAction::Say);
        r
    }
}

impl Clone for MessageAction {
    /// A cloned action models the same action.
    fn clone(&self) -> (r: Self)
        ensures
            r@ == self@,
    {
        match self {
            MessageAction::Query { question, answers } => {
                let q = match question {
                    Option::Some(s) => Option::Some(s.clone()),
                    Option::None => Option::None,
                };
                MessageAction::Query { question: q, answers: answers.clone() }
            }
            MessageAction::SituationalAnalysis => MessageAction::SituationalAnalysis,
            MessageAction::EmotionalResponse => MessageAction::EmotionalResponse,
            MessageAction::LogicalResponse => MessageAction::LogicalResponse,
            MessageAction::ProblemIdentification => MessageAction::ProblemIdentification,
            MessageAction::GoalIdentification => MessageAction::GoalIdentification,
            MessageAction::ProblemSolving => MessageAction::ProblemSolving,
            MessageAction::EmotionalState => MessageAction::EmotionalState,
            MessageAction::Command => MessageAction::Command,
            MessageAction::Say => MessageAction::Say,
        }
    }
}

impl Clone for QueryAnswers {
    /// A cloned answer constraint models the same constraint.
    fn clone(&self) -> (r: Self)
        ensures
            r@ == self@,
    {
        match self {
            QueryAnswers::Literals(answers) => {
                let copied = answers.clone();
                proof {
                    assert forall|i: int| 0 <= i < answers@.len() implies copied@[i]
                        == answers@[i] by {
                        assert(cloned::<String>(answers@[i], copied@[i]));
                    }
                    assert(copied.deep_view() =~= answers.deep_view());
                }
                QueryAnswers::Literals(copied)
            }
            QueryAnswers::FreeText => QueryAnswers::FreeText,
            QueryAnswers::Boolean => QueryAnswers::Boolean,
            QueryAnswers::Number => QueryAnswers::Number,
        }
    }
}

impl QueryAnswers {
    /// The grammar constraining a query's answer. A literal set becomes an
    /// alternation of its quoted members, in order.
    pub fn as_grammar(&self) -> (r: String)
        ensures
            r@ == self@.grammar(),
    {
        match self {
            QueryAnswers::Literals(answers) => {
                let joined = join_quoted(answers);
                let mut s = String::from_str(r#"root ::= ("#);
                s.append(joined.as_str());
                s.append(r#") "\n""#);
                assert(s@ =~= self@.grammar());
                s
            }
            QueryAnswers::FreeText => String::from_str(r#"root ::= [^\n]+ "\n""#),
            QueryAnswers::Boolean => String::from_str(r#"root ::= ("Yes" | "No") "\n""#),
            QueryAnswers::Number => String::from_str(r#"root ::= [0-9]+ "\n""#),
        }
    }
}

/// Joins the quoted members of `items` with ` | `.
fn join_quoted(items: &Vec<String>) -> (r: String)
    ensures
        r@ == spec_join_quoted(items.deep_view()),
{
    let ghost all: Seq<Seq<char>> = items.deep_view();
    let mut r = String::new();
    let mut i: usize = 0;
    proof {
        reveal_strlit("\"");
    }
    while i < items.len()
        invariant
            i <= items.len(),
            all == items.deep_view(),
            all.len() == items.len(),
            r@ == spec_join_quoted(all.subrange(0, i as int)),
        decreases items.len() - i,
    {
        if i > 0 {
            r.append(" | ");
        }
        r.append("\"");
        r.append(items[i].as_str());
        r.append("\"");
        proof {
            reveal_strlit("\"");
            let prev = all.subrange(0, i as int);
            let cur = all.subrange(0, (i + 1) as int);
            assert(cur.drop_last() =~= prev);
            assert(cur.last() == all[i as int]);
            assert(items[i as int]@ == all[i as int]);
            assert(spec_quoted(all[i as int]) =~= "\""@ + all[i as int] + "\""@);
            assert(r@ =~= spec_join_quoted(cur));
        }
        i = i + 1;
    }
    proof {
        assert(all.subrange(0, all.len() as int) =~= all);
    }
    r
}

} // verus!
