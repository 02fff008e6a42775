use sellify_core::audit::{AuditEngine, AuditLog, QuotaSnapshot};

fn create_test_log() -> AuditLog {
    AuditLog {
        id: "log-001".to_string(),
        timestamp: 1_700_000_000,
        conversation_id: "conv-001".to_string(),
        incoming_message: "Test message".to_string(),
        state: "Discovery".to_string(),
        chosen_action: "RespondText".to_string(),
        ai_prompt: Some("Test prompt".to_string()),
        ai_response: Some("Test response".to_string()),
        sent_message: Some("Test sent".to_string()),
        quotas_before: QuotaSnapshot {
            messages_today: 0,
            messages_this_week: 0,
        },
        quotas_after: QuotaSnapshot {
            messages_today: 1,
            messages_this_week: 1,
        },
    }
}

#[test]
fn test_log_message_flow() {
    let mut engine = AuditEngine::new();
    let log = create_test_log();
    engine.log_message_flow(log);
    assert_eq!(engine.log_count(), 1);
}

#[test]
fn test_get_logs() {
    let engine = AuditEngine::new();
    let result = engine.get_logs("conv-001");
    assert!(result.is_empty());
}

#[test]
fn test_generate_report() {
    let engine = AuditEngine::new();
    let report = engine.generate_report(1_700_000_000, 1_700_100_000);
    assert!(!report.is_empty());
}

#[test]
fn test_get_logs_filters_by_conversation() {
    let mut engine = AuditEngine::new();
    let first = create_test_log();
    let mut second = create_test_log();
    second.id = "log-002".to_string();
    second.conversation_id = "conv-002".to_string();
    let mut third = create_test_log();
    third.id = "log-003".to_string();
    engine.log_message_flow(first);
    engine.log_message_flow(second);
    engine.log_message_flow(third);

    let found = engine.get_logs("conv-001");
    assert_eq!(found.len(), 2);
    assert_eq!(found[0].id, "log-001");
    assert_eq!(found[1].id, "log-003");
    assert_eq!(engine.get_logs("conv-002").len(), 1);
    assert_eq!(engine.get_logs("conv-404").len(), 0);
    assert_eq!(engine.log_count(), 3);
}
