use sellify_core::conversation::{
    event_from_name, state_from_name, state_name, ConversationEngine, ConversationEvent,
    ConversationState,
};

#[test]
fn test_initial_state() {
    let state = ConversationEngine::get_initial_state();
    assert_eq!(state, ConversationState::Discovery);
}

#[test]
fn test_discovery_to_interest() {
    let engine = ConversationEngine::new();
    let current = ConversationState::Discovery;
    let next = engine.transition(&current, ConversationEvent::ProductQuestion);
    assert_eq!(next, ConversationState::Interest);
}

#[test]
fn test_interest_to_intent() {
    let engine = ConversationEngine::new();
    let current = ConversationState::Interest;
    let next = engine.transition(&current, ConversationEvent::PriceInterest);
    assert_eq!(next, ConversationState::Intent);
}

#[test]
fn test_threat_escalates_immediately() {
    let engine = ConversationEngine::new();
    let current = ConversationState::Discovery;
    let next = engine.transition(&current, ConversationEvent::ThreatDetected);
    assert_eq!(next, ConversationState::Escalated);
}

#[test]
fn test_escalated_is_terminal() {
    assert!(ConversationEngine::is_terminal_state(&ConversationState::Escalated));
    assert!(ConversationEngine::is_terminal_state(&ConversationState::Frozen));
    assert!(!ConversationEngine::is_terminal_state(&ConversationState::Discovery));
}

#[test]
fn test_objection_can_return_to_interest() {
    let engine = ConversationEngine::new();
    let current = ConversationState::Objection;
    let next = engine.transition(&current, ConversationEvent::ProductQuestion);
    assert_eq!(next, ConversationState::Interest);
}

#[test]
fn test_frozen_absorbs_every_event() {
    let engine = ConversationEngine::new();
    let events = [
        ConversationEvent::ProductQuestion,
        ConversationEvent::PriceInterest,
        ConversationEvent::PurchaseIntent,
        ConversationEvent::ObjectionRaised,
        ConversationEvent::NegativeResponse,
        ConversationEvent::ThreatDetected,
        ConversationEvent::Freeze,
    ];
    for event in events {
        let next = engine.transition(&ConversationState::Frozen, event);
        assert_eq!(next, ConversationState::Frozen);
    }
}

#[test]
fn test_unmatched_pair_stays_put() {
    let engine = ConversationEngine::new();
    let next = engine.transition(&ConversationState::Discovery, ConversationEvent::Freeze);
    assert_eq!(next, ConversationState::Discovery);
}

#[test]
fn test_escalated_freezes_only_by_freeze() {
    let engine = ConversationEngine::new();
    let frozen = engine.transition(&ConversationState::Escalated, ConversationEvent::Freeze);
    assert_eq!(frozen, ConversationState::Frozen);
    let stays = engine.transition(&ConversationState::Escalated, ConversationEvent::ProductQuestion);
    assert_eq!(stays, ConversationState::Escalated);
}

#[test]
fn test_state_names_round_trip() {
    let states = [
        ConversationState::Discovery,
        ConversationState::Interest,
        ConversationState::Intent,
        ConversationState::Objection,
        ConversationState::Negative,
        ConversationState::Escalated,
        ConversationState::Frozen,
    ];
    for state in states {
        let name = state_name(&state);
        assert_eq!(state_from_name(name), Some(state));
    }
    assert_eq!(state_from_name("NoSuchState"), None);
}

#[test]
fn test_event_names_parse() {
    assert_eq!(
        event_from_name("ThreatDetected"),
        Some(ConversationEvent::ThreatDetected)
    );
    assert_eq!(event_from_name("Freeze"), Some(ConversationEvent::Freeze));
    assert_eq!(event_from_name("NoSuchEvent"), None);
}
