//! The sub-process a generated message belongs to: private inner monologue
//! or speech addressed to the user.

use vstd::prelude::*;

verus! {

/// Which of the agent's voices produced a piece of output.
#[derive(Debug, Clone, Copy, PartialEq, Eq, Structural)]
pub enum Subprocess {
    InnerMonologue,
    PublicSpeaker,
}

impl Subprocess {
    /// The display label of this sub-process.
    pub fn name(&self) -> (r: &'static str)
        ensures
            r@ == self.spec_name(),
    {
        match self {
            Subprocess::InnerMonologue => "inner-monologue",
            Subprocess::PublicSpeaker => "public-speaker",
        }
    }

    /// The label of each sub-process, for use in contracts.
    pub open spec fn spec_name(self) -> Seq<char> {
        match self {
            Subprocess::InnerMonologue => "inner-monologue"@,
            Subprocess::PublicSpeaker => "public-speaker"@,
        }
    }
}

} // verus!
