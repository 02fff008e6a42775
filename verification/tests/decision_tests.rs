use sellify_core::conversation::{ConversationEngine, ConversationEvent, ConversationState};
use sellify_core::decision::{action_name, Action, DecisionContext, DecisionEngine};

fn context(
    quotas_available: bool,
    is_active_hours: bool,
    sentiment: Option<&str>,
) -> DecisionContext {
    DecisionContext {
        incoming_message: "Hello".to_string(),
        conversation_state: "Discovery".to_string(),
        quotas_available,
        is_active_hours,
        sentiment_detected: sentiment.map(|s| s.to_string()),
    }
}

#[test]
fn test_decision_engine_ignore_outside_hours() {
    let engine = DecisionEngine::new();
    let context = DecisionContext {
        incoming_message: "Hello".to_string(),
        conversation_state: "Discovery".to_string(),
        quotas_available: true,
        is_active_hours: false,
        sentiment_detected: None,
    };

    let action = engine.decide(context);
    assert_eq!(action, Action::Ignore);
}

#[test]
fn test_decision_engine_alert_on_threat() {
    let engine = DecisionEngine::new();
    let context = DecisionContext {
        incoming_message: "I'll sue you!".to_string(),
        conversation_state: "Discovery".to_string(),
        quotas_available: true,
        is_active_hours: true,
        sentiment_detected: Some("threat".to_string()),
    };

    let action = engine.decide(context);
    assert!(matches!(action, Action::AlertHuman { .. }));
}

#[test]
fn test_ignore_wins_even_over_threat() {
    let engine = DecisionEngine::new();
    let action = engine.decide(context(false, false, Some("threat")));
    assert_eq!(action, Action::Ignore);
}

#[test]
fn test_quota_exhaustion_delays_one_hour() {
    let engine = DecisionEngine::new();
    let action = engine.decide(context(false, true, None));
    assert_eq!(action, Action::Delay { seconds: 3600 });
}

#[test]
fn test_alert_reason_names_the_sentiment() {
    let engine = DecisionEngine::new();
    let action = engine.decide(context(true, true, Some("threat")));
    match action {
        Action::AlertHuman { reason } => {
            assert_eq!(reason, "Sentiment detected: threat");
            assert!(reason.contains("threat"));
        }
        other => panic!("expected AlertHuman, got {:?}", other),
    }
}

#[test]
fn test_anger_also_alerts() {
    let engine = DecisionEngine::new();
    let action = engine.decide(context(true, true, Some("anger")));
    match action {
        Action::AlertHuman { reason } => assert_eq!(reason, "Sentiment detected: anger"),
        other => panic!("expected AlertHuman, got {:?}", other),
    }
}

#[test]
fn test_normal_flow_responds_with_placeholder() {
    let engine = DecisionEngine::new();
    let action = engine.decide(context(true, true, Some("joy")));
    assert_eq!(
        action,
        Action::RespondText {
            text: String::new()
        }
    );
}

#[test]
fn test_validate_action_rules() {
    let engine = DecisionEngine::new();
    let good = context(true, true, None);
    let stale = context(false, true, None);
    let respond = Action::RespondText {
        text: "hi".to_string(),
    };
    assert!(engine.validate_action(&respond, &good));
    assert!(!engine.validate_action(&respond, &stale));
    assert!(engine.validate_action(&Action::Ignore, &stale));
    assert!(engine.validate_action(&Action::StopAutomation, &stale));
    assert!(engine.validate_action(
        &Action::AlertHuman {
            reason: "r".to_string()
        },
        &stale
    ));
}

#[test]
fn test_action_names() {
    assert_eq!(action_name(&Action::Ignore), "Ignore");
    assert_eq!(action_name(&Action::StopAutomation), "StopAutomation");
    assert_eq!(action_name(&Action::Delay { seconds: 5 }), "Delay");
}

#[test]
fn test_threat_scenario_end_to_end() {
    let conversation = ConversationEngine::new();
    let new_state =
        conversation.transition(&ConversationState::Discovery, ConversationEvent::ThreatDetected);
    assert_eq!(new_state, ConversationState::Escalated);

    let engine = DecisionEngine::new();
    let action = engine.decide(context(true, true, Some("threat")));
    match action {
        Action::AlertHuman { reason } => assert!(reason.contains("threat")),
        other => panic!("expected AlertHuman, got {:?}", other),
    }
}
