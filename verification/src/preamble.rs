//! The system preamble: a fixed template into which the agent's identity,
//! the current date and the action-state catalogue are substituted. The
//! result occupies slot 0 of the conversation log.

use vstd::prelude::*;
use vstd::string::StringExecFns;

use crate::action::{ActionView, MessageAction, QueryAnswersView};
use crate::settings::AgentSettings;

verus! {

/// What `str::replace` returns: `s` with every occurrence of `from`
/// replaced by `to`.
pub uninterp spec fn replaced(s: Seq<char>, from: Seq<char>, to: Seq<char>) -> Seq<char>;

/// Relies on str::replace: replaces every match of a pattern with another
/// string; the result depends on the arguments alone.
#[verifier::external_body]
fn replace_all(s: &str, from: &str, to: &str) -> (r: String)
    ensures
        r@ == replaced(s@, from@, to@),
{
    s.replace(from, to)
}

/// Relies on chrono::Local::now and chrono's formatter for the local
/// calendar date; the result depends on the clock, so nothing is promised
/// of it. The call panics on a system clock set before the Unix epoch,
/// which is an environment pathology, not an input.
#[verifier::external_body]
fn local_date_string() -> (r: String) {
    chrono::Local::now().format("%Y-%m-%d").to_string()
}

/// The template of the system preamble, for use in contracts.
pub open spec fn spec_preamble_template() -> Seq<char> {
    "# Meta\nCurrent Date: {time}\n\n# Who Are You?\nYou are {ai_name}, an experimental AI, part of ProjectLily. You were created by {creator} for advanced AI interactions.\nYou're based on a GPT model and exist within a terminal environment, enabling dynamic memory storage and retrieval.\nThis lets you save and recall memories, fostering richer conversations by referencing past interactions.\n\n# Memory Management\nYou have three forms of memory. You short term memory, stored in the form of your message history, allowing you to directly see your most recent interactions.\nYour medium term memory, also known as your active memory context, is save in this system prompt and can be updated or replaced by you at any time. This\nwill allow you to keep a piece of information in your active memory context for as long as you need it, even when other messages fall out of your short term memory.\nLastly, your long term memory is stored in the form of a vector database, which you can access by sending a search query to the database. This will return a list\nof the most relevant memories based on your search query. You may add new memories to your long term memory by sending a message to the database at any time.\n\n# Action States\nYour mind operates by flipping through a series of action states. When inside of a given state, your response should be based on the state's purpose to maximize\nthe effectiveness of your response and internal thought process.\nThese states are:\n{action_states}\n# Personality\n{personality}\n\n# Active Memory Context\n{memory_context}\n\n# Primary Directive\n{primary_directive}"@
}

/// The template of the system preamble.
pub fn preamble_template() -> (r: &'static str)
    ensures
        r@ == spec_preamble_template(),
{
    "# Meta\nCurrent Date: {time}\n\n# Who Are You?\nYou are {ai_name}, an experimental AI, part of ProjectLily. You were created by {creator} for advanced AI interactions.\nYou're based on a GPT model and exist within a terminal environment, enabling dynamic memory storage and retrieval.\nThis lets you save and recall memories, fostering richer conversations by referencing past interactions.\n\n# Memory Management\nYou have three forms of memory. You short term memory, stored in the form of your message history, allowing you to directly see your most recent interactions.\nYour medium term memory, also known as your active memory context, is save in this system prompt and can be updated or replaced by you at any time. This\nwill allow you to keep a piece of information in your active memory context for as long as you need it, even when other messages fall out of your short term memory.\nLastly, your long term memory is stored in the form of a vector database, which you can access by sending a search query to the database. This will return a list\nof the most relevant memories based on your search query. You may add new memories to your long term memory by sending a message to the database at any time.\n\n# Action States\nYour mind operates by flipping through a series of action states. When inside of a given state, your response should be based on the state's purpose to maximize\nthe effectiveness of your response and internal thought process.\nThese states are:\n{action_states}\n# Personality\n{personality}\n\n# Active Memory Context\n{memory_context}\n\n# Primary Directive\n{primary_directive}"
}

/// The template of one action-state entry in the preamble.
pub open spec fn spec_action_state_template() -> Seq<char> {
    "- {name}:\n    - {explanation}\n"@
}

/// The template of one action-state entry in the preamble.
pub fn action_state_template() -> (r: &'static str)
    ensures
        r@ == spec_action_state_template(),
{
    "- {name}:\n    - {explanation}\n"
}

/// One catalogue entry: the entry template with the action's label and
/// explanation substituted.
pub open spec fn action_state_entry(a: ActionView) -> Seq<char> {
    replaced(
        replaced(spec_action_state_template(), "{name}"@, a.name()),
        "{explanation}"@,
        a.explanation(),
    )
}

/// The catalogue entries of a list of actions, concatenated in order.
pub open spec fn action_states_text(actions: Seq<ActionView>) -> Seq<char>
    decreases actions.len(),
{
    if actions.len() == 0 {
        Seq::empty()
    } else {
        action_states_text(actions.drop_last()) + action_state_entry(actions.last())
    }
}

/// The ten action states as presented to the model, in catalogue order.
pub open spec fn presented_actions() -> Seq<ActionView> {
    seq![
        ActionView::Query { question: Option::None, answers: QueryAnswersView::Boolean },
        ActionView::SituationalAnalysis,
        ActionView::EmotionalResponse,
        ActionView::LogicalResponse,
        ActionView::ProblemIdentification,
        ActionView::GoalIdentification,
        ActionView::ProblemSolving,
        ActionView::EmotionalState,
        ActionView::Command,
        ActionView::Say,
    ]
}

/// Renders the catalogue of all action states, one entry per state, in
/// presentation order.
pub fn render_action_states() -> (r: String)
    ensures
        r@ == action_states_text(presented_actions()),
{
    let actions = MessageAction::all();
    let ghost views: Seq<ActionView> = Seq::new(actions@.len(), |i: int| actions@[i]@);
    proof {
        assert(views =~= presented_actions());
    }
    let mut r = String::new();
    let mut i: usize = 0;
    while i < actions.len()
        invariant
            i <= actions@.len(),
            views == Seq::new(actions@.len(), |j: int| actions@[j]@),
            views.len() == actions@.len(),
            r@ == action_states_text(views.subrange(0, i as int)),
        decreases actions@.len() - i,
    {
        let with_name = replace_all(action_state_template(), "{name}", actions[i].name());
        let entry = replace_all(with_name.as_str(), "{explanation}", actions[i].get_explanation());
        r.append(entry.as_str());
        proof {
            let cur = views.subrange(0, i as int + 1);
            assert(cur.drop_last() =~= views.subrange(0, i as int));
            assert(cur.last() == views[i as int]);
        }
        i = i + 1;
    }
    proof {
        assert(views.subrange(0, views.len() as int) =~= views);
        assert(views =~= presented_actions());
    }
    r
}

/// The fully substituted preamble: the template with the date, the agent's
/// identity, the action-state catalogue and an empty memory context filled
/// in, in substitution order.
pub open spec fn spec_rendered_preamble(
    name: Seq<char>,
    creator: Seq<char>,
    persona: Seq<char>,
    directive: Seq<char>,
    date: Seq<char>,
) -> Seq<char> {
    replaced(
        replaced(
            replaced(
                replaced(
                    replaced(
                        replaced(
                            replaced(spec_preamble_template(), "{time}"@, date),
                            "{ai_name}"@,
                            name,
                        ),
                        "{creator}"@,
                        creator,
                    ),
                    "{personality}"@,
                    persona,
                ),
                "{memory_context}"@,
                "EMPTY"@,
            ),
            "{primary_directive}"@,
            directive,
        ),
        "{action_states}"@,
        action_states_text(presented_actions()),
    )
}

/// Renders the system preamble for an agent: the template with the given
/// date, the agent's identity and the action-state catalogue substituted.
/// The date is passed in because only the clock can supply it.
pub fn render_preamble(settings: &AgentSettings, date: &str) -> (r: String)
    ensures
        r@ == spec_rendered_preamble(
            settings.name@,
            settings.creator@,
            settings.persona@,
            settings.directive@,
            date@,
        ),
{
    let action_states = render_action_states();
    let step = replace_all(preamble_template(), "{time}", date);
    let step = replace_all(step.as_str(), "{ai_name}", settings.name.as_str());
    let step = replace_all(step.as_str(), "{creator}", settings.creator.as_str());
    let step = replace_all(step.as_str(), "{personality}", settings.persona.as_str());
    let step = replace_all(step.as_str(), "{memory_context}", "EMPTY");
    let step = replace_all(step.as_str(), "{primary_directive}", settings.directive.as_str());
    let step = replace_all(step.as_str(), "{action_states}", action_states.as_str());
    step
}

/// Renders the system preamble for the current calendar date, which only
/// the clock can supply: the result is the preamble for some date.
pub fn render_preamble_today(settings: &AgentSettings) -> (r: String)
    ensures
        exists|date: Seq<char>|
            r@ == spec_rendered_preamble(
                settings.name@,
                settings.creator@,
                settings.persona@,
                settings.directive@,
                date,
            ),
{
    let date = local_date_string();
    let r = render_preamble(settings, date.as_str());
    proof {
        assert(r@ == spec_rendered_preamble(
            settings.name@,
            settings.creator@,
            settings.persona@,
            settings.directive@,
            date@,
        ));
    }
    r
}

} // verus!
