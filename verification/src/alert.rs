//! Alert trigger detector: scans inbound text for conditions that require
//! silent human escalation.
//!
//! Legal keywords are checked before threat keywords, so a legal situation
//! wins when both are present. Detection only produces a signal; dispatch
//! to the human channel is outside this crate.

use vstd::prelude::*;

use crate::text::{contains_str, has_substring, lower_of, lowercase};

verus! {

/// Conditions that require human intervention.
#[derive(Debug, Clone, PartialEq)]
pub enum AlertTrigger {
    Anger,
    Threat,
    RepeatedMisunderstanding,
    SensitiveWord(String),
    LegalSituation,
}

/// A legal keyword occurs in the case-folded message.
pub open spec fn spec_has_legal(lowered: Seq<char>) -> bool {
    ||| has_substring(lowered, "avocat"@)
    ||| has_substring(lowered, "tribunal"@)
    ||| has_substring(lowered, "police"@)
    ||| has_substring(lowered, "procès"@)
}

/// A threat keyword occurs in the case-folded message.
pub open spec fn spec_has_threat(lowered: Seq<char>) -> bool {
    ||| has_substring(lowered, "tuer"@)
    ||| has_substring(lowered, "frapper"@)
    ||| has_substring(lowered, "détruire"@)
}

/// Notifies humans without revealing the escalation to the client.
pub struct AlertEngine {
    pub alert_numbers: Vec<String>,
}

impl AlertEngine {
    pub fn new(alert_numbers: Vec<String>) -> (engine: Self)
        ensures
            engine.alert_numbers == alert_numbers,
    {
        Self { alert_numbers }
    }

    /// Case-insensitive keyword scan: a legal keyword yields
    /// `LegalSituation`, otherwise a threat keyword yields `Threat`,
    /// otherwise no trigger is raised.
    pub fn detect_trigger(&self, message: &str) -> (trigger: Option<AlertTrigger>)
        ensures
            spec_has_legal(lower_of(message@))
                ==> trigger == Some(AlertTrigger::LegalSituation),
            !spec_has_legal(lower_of(message@)) && spec_has_threat(lower_of(message@))
                ==> trigger == Some(AlertTrigger::Threat),
            !spec_has_legal(lower_of(message@)) && !spec_has_threat(lower_of(message@))
                ==> trigger is None,
    {
        let lowered = lowercase(message);
        let lowered_slice = lowered.as_str();
        if contains_str(lowered_slice, "avocat")
            || contains_str(lowered_slice, "tribunal")
            || contains_str(lowered_slice, "police")
            || contains_str(lowered_slice, "procès")
        {
            return Some(AlertTrigger::LegalSituation);
        }
        if contains_str(lowered_slice, "tuer")
            || contains_str(lowered_slice, "frapper")
            || contains_str(lowered_slice, "détruire")
        {
            return Some(AlertTrigger::Threat);
        }
        None
    }
}

impl Default for AlertEngine {
    fn default() -> (engine: Self)
        ensures
            engine.alert_numbers@.len() == 0,
    {
        Self::new(Vec::new())
    }
}

} // verus!
