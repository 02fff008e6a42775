//! Rule-based decision function: for every inbound message it chooses
//! exactly one permitted action from a closed set, in strict priority
//! order. It decides whether an action may happen, never what words are
//! said: text generation is delegated to the caller.

use vstd::prelude::*;
use vstd::string::StringExecFns;

use crate::text::str_eq;

verus! {

/// The closed set of actions the decision function may return.
#[derive(Debug, Clone, PartialEq)]
pub enum Action {
    RespondText { text: String },
    RespondWithMedia { text: String, media_id: String },
    Ignore,
    Delay { seconds: u64 },
    AlertHuman { reason: String },
    StopAutomation,
}

/// All inputs of one decision cycle, constructed fresh per cycle.
#[derive(Debug, Clone)]
pub struct DecisionContext {
    pub incoming_message: String,
    pub conversation_state: String,
    pub quotas_available: bool,
    pub is_active_hours: bool,
    pub sentiment_detected: Option<String>,
}

/// The detected sentiment calls for human attention.
pub open spec fn spec_is_alert_sentiment(sentiment: Option<String>) -> bool {
    sentiment matches Some(s) && (s@ == "anger"@ || s@ == "threat"@)
}

/// The reason reported to the human channel: the fixed prefix followed by
/// the sentiment label.
pub open spec fn spec_alert_reason(sentiment: Option<String>) -> Seq<char> {
    "Sentiment detected: "@ + sentiment->0@
}

/// An action is still legal in a context: responses need active hours and
/// quota admission, everything else is always allowed.
pub open spec fn spec_action_allowed(action: Action, context: DecisionContext) -> bool {
    match action {
        Action::RespondText { .. } => context.is_active_hours && context.quotas_available,
        Action::RespondWithMedia { .. } => context.is_active_hours && context.quotas_available,
        _ => true,
    }
}

/// The transport spelling of each action variant.
pub open spec fn spec_action_name(action: Action) -> Seq<char> {
    match action {
        Action::RespondText { .. } => "RespondText"@,
        Action::RespondWithMedia { .. } => "RespondWithMedia"@,
        Action::Ignore => "Ignore"@,
        Action::Delay { .. } => "Delay"@,
        Action::AlertHuman { .. } => "AlertHuman"@,
        Action::StopAutomation => "StopAutomation"@,
    }
}

/// The transport spelling of an action variant.
pub fn action_name(action: &Action) -> (name: &'static str)
    ensures
        name@ == spec_action_name(*action),
{
    match action {
        Action::RespondText { .. } => "RespondText",
        Action::RespondWithMedia { .. } => "RespondWithMedia",
        Action::Ignore => "Ignore",
        Action::Delay { .. } => "Delay",
        Action::AlertHuman { .. } => "AlertHuman",
        Action::StopAutomation => "StopAutomation",
    }
}

/// Decides what to do, never how to say it.
pub struct DecisionEngine;

impl DecisionEngine {
    pub fn new() -> Self {
        Self
    }

    /// One deterministic action per context, by strict priority: outside
    /// active hours ignore; without quota admission delay an hour; on an
    /// anger or threat sentiment alert a human; otherwise respond with an
    /// empty placeholder text that the caller must fill by generation.
    pub fn decide(&self, context: DecisionContext) -> (action: Action)
        ensures
            !context.is_active_hours ==> action == Action::Ignore,
            context.is_active_hours && !context.quotas_available ==> action == (Action::Delay {
                seconds: 3600,
            }),
            context.is_active_hours && context.quotas_available && spec_is_alert_sentiment(
                context.sentiment_detected,
            ) ==> (action matches Action::AlertHuman { reason } && reason@ == spec_alert_reason(
                context.sentiment_detected,
            )),
            context.is_active_hours && context.quotas_available && !spec_is_alert_sentiment(
                context.sentiment_detected,
            ) ==> (action matches Action::RespondText { text } && text@ == Seq::<char>::empty()),
    {
        if !context.is_active_hours {
            return Action::Ignore;
        }
        if !context.quotas_available {
            return Action::Delay { seconds: 3600 };
        }
        match &context.sentiment_detected {
            Some(sentiment) => {
                if str_eq(sentiment.as_str(), "anger") || str_eq(sentiment.as_str(), "threat") {
                    let mut reason = String::from_str("Sentiment detected: ");
                    reason.append(sentiment.as_str());
                    return Action::AlertHuman { reason };
                }
            },
            None => {},
        }
        Action::RespondText { text: String::new() }
    }

    /// Defensive re-validation of a chosen action against a possibly
    /// stale context.
    pub fn validate_action(&self, action: &Action, context: &DecisionContext) -> (allowed: bool)
        ensures
            allowed == spec_action_allowed(*action, *context),
    {
        match action {
            Action::RespondText { .. } => {
                context.is_active_hours && context.quotas_available
            },
            Action::RespondWithMedia { .. } => {
                context.is_active_hours && context.quotas_available
            },
            Action::Ignore => true,
            Action::Delay { .. } => true,
            Action::AlertHuman { .. } => true,
            Action::StopAutomation => true,
        }
    }
}

impl Default for DecisionEngine {
    fn default() -> Self {
        Self::new()
    }
}

} // verus!
