//! The fixed-cycle state machine that decides the agent's next cognitive
//! action.

use vstd::prelude::*;

use crate::action::{ActionView, MessageAction, QueryAnswersView};

verus! {

/// The transition function of the cycle. From the initial state (`None`) the
/// machine always enters situational analysis; a query never advances the
/// cycle and always falls back to situational analysis.
pub open spec fn next_in_cycle(last: Option<ActionView>) -> ActionView {
    match last {
        Option::None => ActionView::SituationalAnalysis,
        Option::Some(ActionView::SituationalAnalysis) => ActionView::EmotionalResponse,
        Option::Some(ActionView::EmotionalResponse) => ActionView::LogicalResponse,
        Option::Some(ActionView::LogicalResponse) => ActionView::ProblemIdentification,
        Option::Some(ActionView::ProblemIdentification) => ActionView::GoalIdentification,
        Option::Some(ActionView::GoalIdentification) => ActionView::ProblemSolving,
        Option::Some(ActionView::ProblemSolving) => ActionView::EmotionalState,
        Option::Some(ActionView::EmotionalState) => ActionView::Command,
        Option::Some(ActionView::Command) => ActionView::Say,
        Option::Some(ActionView::Say) => ActionView::SituationalAnalysis,
        Option::Some(ActionView::Query { .. }) => ActionView::SituationalAnalysis,
    }
}

/// Tracks the action emitted last and produces the next one in the cycle.
pub struct ProcessStateMachine {
    last_action: Option<MessageAction>,
}

impl View for ProcessStateMachine {
    type V = Option<ActionView>;

    /// A state machine is its last emitted action, `None` before the first.
    closed spec fn view(&self) -> Option<ActionView> {
        match self.last_action {
            Option::Some(a) => Option::Some(a@),
            Option::None => Option::None,
        }
    }
}

impl ProcessStateMachine {
    /// Creates a machine in the initial state: nothing emitted yet.
    pub fn new() -> (r: Self)
        ensures
            r@ is None,
    {
        Self { last_action: Option::None }
    }

    /// The action emitted last, or `None` before the first transition.
    pub fn last_action(&self) -> (r: Option<&MessageAction>)
        ensures
            match r {
                Option::Some(a) => self@ == Option::Some(a@),
                Option::None => self@ is None,
            },
    {
        self.last_action.as_ref()
    }

    /// Advances the machine one step and returns the emitted action.
    pub fn next_action(&mut self) -> (r: MessageAction)
        ensures
            r@ == next_in_cycle(old(self)@),
            final(self)@ == Option::Some(r@),
    {
        let next_action = match &self.last_action {
            Option::None => MessageAction::SituationalAnalysis,
            Option::Some(MessageAction::SituationalAnalysis) => MessageAction::EmotionalResponse,
            Option::Some(MessageAction::EmotionalResponse) => MessageAction::LogicalResponse,
            Option::Some(MessageAction::LogicalResponse) => MessageAction::ProblemIdentification,
            Option::Some(MessageAction::ProblemIdentification) => MessageAction::GoalIdentification,
            Option::Some(MessageAction::GoalIdentification) => MessageAction::ProblemSolving,
            Option::Some(MessageAction::ProblemSolving) => MessageAction::EmotionalState,
            Option::Some(MessageAction::EmotionalState) => MessageAction::Command,
            Option::Some(MessageAction::Command) => MessageAction::Say,
            Option::Some(MessageAction::Say) => MessageAction::SituationalAnalysis,
            Option::Some(MessageAction::Query { .. }) => MessageAction::SituationalAnalysis,
        };

        self.last_action = Option::Some(next_action.clone());
        next_action
    }

    /// Puts the machine into a given state directly. This is how an outside
    /// driver interrupts the cycle with a query; the next transition then
    /// returns to situational analysis.
    pub fn set_action(&mut self, action: MessageAction)
        ensures
            final(self)@ == Option::Some(action@),
    {
        self.last_action = Option::Some(action);
    }
}

impl Default for ProcessStateMachine {
    /// The default machine is the initial one.
    fn default() -> (r: Self)
        ensures
            r@ is None,
    {
        Self::new()
    }
}

/// The action emitted by the `n`-th call of `next_action` on a machine that
/// starts in the initial state and is only ever advanced by the cycle.
pub open spec fn emitted_action(n: nat) -> ActionView
    decreases n,
{
    if n == 0 {
        next_in_cycle(Option::None)
    } else {
        next_in_cycle(Option::Some(emitted_action((n - 1) as nat)))
    }
}

/// The emitted sequence follows the fixed cycle exactly: it opens with the
/// nine cycle states in order, repeats with period nine forever, and a query
/// always yields situational analysis next.
pub proof fn lemma_action_cycle(n: nat)
    ensures
        emitted_action(0) == ActionView::SituationalAnalysis,
        emitted_action(1) == ActionView::EmotionalResponse,
        emitted_action(2) == ActionView::LogicalResponse,
        emitted_action(3) == ActionView::ProblemIdentification,
        emitted_action(4) == ActionView::GoalIdentification,
        emitted_action(5) == ActionView::ProblemSolving,
        emitted_action(6) == ActionView::EmotionalState,
        emitted_action(7) == ActionView::Command,
        emitted_action(8) == ActionView::Say,
        emitted_action(n + 9) == emitted_action(n),
        forall|question: Option<Seq<char>>, answers: QueryAnswersView|
            next_in_cycle(
                Option::Some(ActionView::Query { question, answers }),
            ) == ActionView::SituationalAnalysis,
    decreases n,
{
    reveal_with_fuel(emitted_action, 10);
    if n > 0 {
        lemma_action_cycle((n - 1) as nat);
    }
}

} // verus!
