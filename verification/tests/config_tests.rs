use sellify_core::config::ConfigEngine;

#[test]
fn test_config_engine_creation() {
    let engine = ConfigEngine::new();
    assert!(engine.get_config().ai_enabled);
}

#[test]
fn test_default_config() {
    let engine = ConfigEngine::new();
    let config = engine.get_config();
    assert_eq!(config.active_hours.start, "09:00");
    assert_eq!(config.response_delay.min_seconds, 2);
}

#[test]
fn test_update_config_replaces_values() {
    let mut engine = ConfigEngine::new();
    let mut config = ConfigEngine::default_config();
    config.ai_enabled = false;
    config.anti_ban.max_messages_per_day = 42;
    engine.update_config(config);
    assert!(!engine.get_config().ai_enabled);
    assert_eq!(engine.get_config().anti_ban.max_messages_per_day, 42);
}

#[test]
fn test_default_sensitive_keywords() {
    let config = ConfigEngine::default_config();
    assert_eq!(
        config.escalation_threshold.sensitive_keywords,
        vec!["avocat", "tribunal", "police"]
    );
    assert_eq!(config.escalation_threshold.max_misunderstandings, 3);
}
