//! The identity an agent is configured with: who it is, who made it, how it
//! behaves and what it is for.

use vstd::prelude::*;

verus! {

/// The agent's identity, substituted into the system preamble. Generation
/// parameters for the language model live with the unverified client, not
/// here.
#[derive(Debug)]
pub struct AgentSettings {
    pub name: String,
    pub creator: String,
    pub persona: String,
    pub directive: String,
}

} // verus!
