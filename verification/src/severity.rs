//! Severity levels attached to system messages in the conversation log.

use vstd::prelude::*;

verus! {

/// How urgent a system message is. The severity label is rendered in front
/// of the message text and stored alongside it by the persistence layer.
#[derive(Debug, Clone, Copy, PartialEq, Eq, Structural)]
pub enum SystemMessageSeverity {
    Debug,
    Info,
    Warn,
    Error,
}

/// The severity whose label is `s`, if any: the specification of `from_name`.
pub open spec fn severity_of_name(s: Seq<char>) -> Option<SystemMessageSeverity> {
    if s == "debug"@ {
        Some(SystemMessageSeverity::Debug)
    } else if s == "info"@ {
        Some(SystemMessageSeverity::Info)
    } else if s == "warn"@ {
        Some(SystemMessageSeverity::Warn)
    } else if s == "error"@ {
        Some(SystemMessageSeverity::Error)
    } else {
        None
    }
}

impl SystemMessageSeverity {
    /// The lower-case label for this severity, as rendered and persisted.
    pub fn name(&self) -> (r: &'static str)
        ensures
            r@ == self.spec_name(),
    {
        match self {
            SystemMessageSeverity::Debug => "debug",
            SystemMessageSeverity::Info => "info",
            SystemMessageSeverity::Warn => "warn",
            SystemMessageSeverity::Error => "error",
        }
    }

    /// The label of each severity, for use in contracts.
    pub open spec fn spec_name(self) -> Seq<char> {
        match self {
            SystemMessageSeverity::Debug => "debug"@,
            SystemMessageSeverity::Info => "info"@,
            SystemMessageSeverity::Warn => "warn"@,
            SystemMessageSeverity::Error => "error"@,
        }
    }

    /// Parses a severity label back into a severity: the inverse of `name`.
    pub fn from_name(s: &str) -> (r: Option<SystemMessageSeverity>)
        ensures
            r == severity_of_name(s@),
    {
        if str_eq(s, "debug") {
            Some(SystemMessageSeverity::Debug)
        } else if str_eq(s, "info") {
            Some(SystemMessageSeverity::Info)
        } else if str_eq(s, "warn") {
            Some(SystemMessageSeverity::Warn)
        } else if str_eq(s, "error") {
            Some(SystemMessageSeverity::Error)
        } else {
            None
        }
    }
}

/// Parsing a severity's own label yields that severity back: severities
/// survive the round trip through their persisted labels.
pub proof fn lemma_severity_label_round_trip(sev: SystemMessageSeverity)
    ensures
        severity_of_name(sev.spec_name()) == Some(sev),
{
    reveal_strlit("debug");
    reveal_strlit("info");
    reveal_strlit("warn");
    reveal_strlit("error");
    assert("debug"@.len() == 5);
    assert("info"@.len() == 4);
    assert("warn"@.len() == 4);
    assert("error"@.len() == 5);
    assert("info"@[0] == 'i');
    assert("warn"@[0] == 'w');
    assert("debug"@[0] == 'd');
    assert("error"@[0] == 'e');
}

/// Character-for-character equality of two string slices.
pub fn str_eq(a: &str, b: &str) -> (r: bool)
    ensures
        r == (a@ == b@),
{
    let a_owned: String = a.to_owned();
    let b_owned: String = b.to_owned();
    a_owned == b_owned
}

} // verus!
