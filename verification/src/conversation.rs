//! Conversation state machine: deterministic, rule-based transitions.
//!
//! The transition table is the law of the conversation: it never consults
//! time, randomness or any other component, and every (state, event) pair
//! has a defined successor, defaulting to "no change".

use vstd::prelude::*;

verus! {

/// Objective state of one conversation. `Escalated` and `Frozen` are
/// terminal: automation must not resume once either is reached.
#[derive(Debug, Clone, Copy, PartialEq, Eq, Structural)]
pub enum ConversationState {
    Discovery,
    Interest,
    Intent,
    Objection,
    Negative,
    Escalated,
    Frozen,
}

/// Event signals produced by upstream classification, consumed exactly
/// once per decision cycle.
#[derive(Debug, Clone, Copy, PartialEq, Eq, Structural)]
pub enum ConversationEvent {
    ProductQuestion,
    PriceInterest,
    PurchaseIntent,
    ObjectionRaised,
    NegativeResponse,
    ThreatDetected,
    Freeze,
}

/// The transition table as a single auditable function.
pub open spec fn spec_transition(
    current: ConversationState,
    event: ConversationEvent,
) -> ConversationState {
    match (current, event) {
        (ConversationState::Discovery, ConversationEvent::ProductQuestion)
            => ConversationState::Interest,
        (ConversationState::Discovery, ConversationEvent::NegativeResponse)
            => ConversationState::Negative,
        (ConversationState::Discovery, ConversationEvent::ThreatDetected)
            => ConversationState::Escalated,
        (ConversationState::Interest, ConversationEvent::PriceInterest)
            => ConversationState::Intent,
        (ConversationState::Interest, ConversationEvent::ObjectionRaised)
            => ConversationState::Objection,
        (ConversationState::Interest, ConversationEvent::NegativeResponse)
            => ConversationState::Negative,
        (ConversationState::Interest, ConversationEvent::ThreatDetected)
            => ConversationState::Escalated,
        (ConversationState::Intent, ConversationEvent::PurchaseIntent)
            => ConversationState::Intent,
        (ConversationState::Intent, ConversationEvent::ObjectionRaised)
            => ConversationState::Objection,
        (ConversationState::Intent, ConversationEvent::NegativeResponse)
            => ConversationState::Negative,
        (ConversationState::Intent, ConversationEvent::ThreatDetected)
            => ConversationState::Escalated,
        (ConversationState::Objection, ConversationEvent::ProductQuestion)
            => ConversationState::Interest,
        (ConversationState::Objection, ConversationEvent::NegativeResponse)
            => ConversationState::Negative,
        (ConversationState::Objection, ConversationEvent::ThreatDetected)
            => ConversationState::Escalated,
        (ConversationState::Negative, ConversationEvent::Freeze)
            => ConversationState::Frozen,
        (ConversationState::Escalated, ConversationEvent::Freeze)
            => ConversationState::Frozen,
        (ConversationState::Escalated, _) => ConversationState::Escalated,
        (ConversationState::Negative, _) => ConversationState::Negative,
        (ConversationState::Frozen, _) => ConversationState::Frozen,
        (current, _) => current,
    }
}

/// States in which automation must not resume.
pub open spec fn spec_is_terminal(state: ConversationState) -> bool {
    state == ConversationState::Escalated || state == ConversationState::Frozen
}

/// Result of running a whole sequence of events from a starting state.
pub open spec fn spec_run(
    state: ConversationState,
    events: Seq<ConversationEvent>,
) -> ConversationState
    decreases events.len(),
{
    if events.len() == 0 {
        state
    } else {
        spec_run(spec_transition(state, events[0]), events.drop_first())
    }
}

/// The transport spelling of each state.
pub open spec fn spec_state_name(state: ConversationState) -> Seq<char> {
    match state {
        ConversationState::Discovery => "Discovery"@,
        ConversationState::Interest => "Interest"@,
        ConversationState::Intent => "Intent"@,
        ConversationState::Objection => "Objection"@,
        ConversationState::Negative => "Negative"@,
        ConversationState::Escalated => "Escalated"@,
        ConversationState::Frozen => "Frozen"@,
    }
}

/// The state a transport name denotes, if any.
pub open spec fn spec_state_from_name(name: Seq<char>) -> Option<ConversationState> {
    if name == "Discovery"@ {
        Some(ConversationState::Discovery)
    } else if name == "Interest"@ {
        Some(ConversationState::Interest)
    } else if name == "Intent"@ {
        Some(ConversationState::Intent)
    } else if name == "Objection"@ {
        Some(ConversationState::Objection)
    } else if name == "Negative"@ {
        Some(ConversationState::Negative)
    } else if name == "Escalated"@ {
        Some(ConversationState::Escalated)
    } else if name == "Frozen"@ {
        Some(ConversationState::Frozen)
    } else {
        None
    }
}

/// The event a transport name denotes, if any.
pub open spec fn spec_event_from_name(name: Seq<char>) -> Option<ConversationEvent> {
    if name == "ProductQuestion"@ {
        Some(ConversationEvent::ProductQuestion)
    } else if name == "PriceInterest"@ {
        Some(ConversationEvent::PriceInterest)
    } else if name == "PurchaseIntent"@ {
        Some(ConversationEvent::PurchaseIntent)
    } else if name == "ObjectionRaised"@ {
        Some(ConversationEvent::ObjectionRaised)
    } else if name == "NegativeResponse"@ {
        Some(ConversationEvent::NegativeResponse)
    } else if name == "ThreatDetected"@ {
        Some(ConversationEvent::ThreatDetected)
    } else if name == "Freeze"@ {
        Some(ConversationEvent::Freeze)
    } else {
        None
    }
}

/// The transport spelling of a state.
pub fn state_name(state: &ConversationState) -> (name: &'static str)
    ensures
        name@ == spec_state_name(*state),
{
    match state {
        ConversationState::Discovery => "Discovery",
        ConversationState::Interest => "Interest",
        ConversationState::Intent => "Intent",
        ConversationState::Objection => "Objection",
        ConversationState::Negative => "Negative",
        ConversationState::Escalated => "Escalated",
        ConversationState::Frozen => "Frozen",
    }
}

/// Parses a state as the transport layer spells it.
pub fn state_from_name(name: &str) -> (parsed: Option<ConversationState>)
    ensures
        parsed == spec_state_from_name(name@),
{
    if crate::text::str_eq(name, "Discovery") {
        Some(ConversationState::Discovery)
    } else if crate::text::str_eq(name, "Interest") {
        Some(ConversationState::Interest)
    } else if crate::text::str_eq(name, "Intent") {
        Some(ConversationState::Intent)
    } else if crate::text::str_eq(name, "Objection") {
        Some(ConversationState::Objection)
    } else if crate::text::str_eq(name, "Negative") {
        Some(ConversationState::Negative)
    } else if crate::text::str_eq(name, "Escalated") {
        Some(ConversationState::Escalated)
    } else if crate::text::str_eq(name, "Frozen") {
        Some(ConversationState::Frozen)
    } else {
        None
    }
}

/// Parses an event as the transport layer spells it.
pub fn event_from_name(name: &str) -> (parsed: Option<ConversationEvent>)
    ensures
        parsed == spec_event_from_name(name@),
{
    if crate::text::str_eq(name, "ProductQuestion") {
        Some(ConversationEvent::ProductQuestion)
    } else if crate::text::str_eq(name, "PriceInterest") {
        Some(ConversationEvent::PriceInterest)
    } else if crate::text::str_eq(name, "PurchaseIntent") {
        Some(ConversationEvent::PurchaseIntent)
    } else if crate::text::str_eq(name, "ObjectionRaised") {
        Some(ConversationEvent::ObjectionRaised)
    } else if crate::text::str_eq(name, "NegativeResponse") {
        Some(ConversationEvent::NegativeResponse)
    } else if crate::text::str_eq(name, "ThreatDetected") {
        Some(ConversationEvent::ThreatDetected)
    } else if crate::text::str_eq(name, "Freeze") {
        Some(ConversationEvent::Freeze)
    } else {
        None
    }
}

/// Maintains the objective state of discussions. Transitions are
/// deterministic and rule-based, never inferred.
pub struct ConversationEngine;

impl ConversationEngine {
    pub fn new() -> Self {
        Self
    }

    /// Applies the transition table to one (state, event) pair.
    pub fn transition(
        &self,
        current: &ConversationState,
        event: ConversationEvent,
    ) -> (next: ConversationState)
        ensures
            next == spec_transition(*current, event),
    {
        match (*current, event) {
            (ConversationState::Discovery, ConversationEvent::ProductQuestion)
                => ConversationState::Interest,
            (ConversationState::Discovery, ConversationEvent::NegativeResponse)
                => ConversationState::Negative,
            (ConversationState::Discovery, ConversationEvent::ThreatDetected)
                => ConversationState::Escalated,
            (ConversationState::Interest, ConversationEvent::PriceInterest)
                => ConversationState::Intent,
            (ConversationState::Interest, ConversationEvent::ObjectionRaised)
                => ConversationState::Objection,
            (ConversationState::Interest, ConversationEvent::NegativeResponse)
                => ConversationState::Negative,
            (ConversationState::Interest, ConversationEvent::ThreatDetected)
                => ConversationState::Escalated,
            (ConversationState::Intent, ConversationEvent::PurchaseIntent)
                => ConversationState::Intent,
            (ConversationState::Intent, ConversationEvent::ObjectionRaised)
                => ConversationState::Objection,
            (ConversationState::Intent, ConversationEvent::NegativeResponse)
                => ConversationState::Negative,
            (ConversationState::Intent, ConversationEvent::ThreatDetected)
                => ConversationState::Escalated,
            (ConversationState::Objection, ConversationEvent::ProductQuestion)
                => ConversationState::Interest,
            (ConversationState::Objection, ConversationEvent::NegativeResponse)
                => ConversationState::Negative,
            (ConversationState::Objection, ConversationEvent::ThreatDetected)
                => ConversationState::Escalated,
            (ConversationState::Negative, ConversationEvent::Freeze)
                => ConversationState::Frozen,
            (ConversationState::Escalated, ConversationEvent::Freeze)
                => ConversationState::Frozen,
            (ConversationState::Escalated, _) => ConversationState::Escalated,
            (ConversationState::Negative, _) => ConversationState::Negative,
            (ConversationState::Frozen, _) => ConversationState::Frozen,
            (c, _) => c,
        }
    }

    /// Every conversation starts in `Discovery`.
    pub fn get_initial_state() -> (state: ConversationState)
        ensures
            state == ConversationState::Discovery,
    {
        ConversationState::Discovery
    }

    /// True exactly for the states in which automation must not resume.
    pub fn is_terminal_state(state: &ConversationState) -> (terminal: bool)
        ensures
            terminal == spec_is_terminal(*state),
    {
        match state {
            ConversationState::Escalated => true,
            ConversationState::Frozen => true,
            _ => false,
        }
    }
}

impl Default for ConversationEngine {
    fn default() -> Self {
        Self::new()
    }
}

/// Every (state, event) pair has a defined successor, and `Frozen` is
/// absorbing: no event leads out of it.
pub proof fn lemma_frozen_absorbing(event: ConversationEvent)
    ensures
        spec_transition(ConversationState::Frozen, event) == ConversationState::Frozen,
{
}

/// `Escalated` moves only along the documented freeze path: `Freeze` leads
/// to `Frozen`, every other event leaves the state `Escalated`.
pub proof fn lemma_escalated_only_freezes(event: ConversationEvent)
    ensures
        event == ConversationEvent::Freeze
            ==> spec_transition(ConversationState::Escalated, event)
                == ConversationState::Frozen,
        event != ConversationEvent::Freeze
            ==> spec_transition(ConversationState::Escalated, event)
                == ConversationState::Escalated,
{
}

/// The terminal set is closed under every single transition: once a state
/// is terminal, the successor state is terminal as well.
pub proof fn lemma_terminal_closed(state: ConversationState, event: ConversationEvent)
    ensures
        spec_is_terminal(state) ==> spec_is_terminal(spec_transition(state, event)),
{
}

/// Once terminal, always terminal: no sequence of further events leads a
/// terminal state back into the automatable set.
pub proof fn lemma_terminal_stays_terminal(
    state: ConversationState,
    events: Seq<ConversationEvent>,
)
    requires
        spec_is_terminal(state),
    ensures
        spec_is_terminal(spec_run(state, events)),
    decreases events.len(),
{
    if events.len() > 0 {
        lemma_terminal_closed(state, events[0]);
        lemma_terminal_stays_terminal(spec_transition(state, events[0]), events.drop_first());
    }
}

} // verus!
