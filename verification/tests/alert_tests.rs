use sellify_core::alert::{AlertEngine, AlertTrigger};

#[test]
fn test_detect_legal_trigger() {
    let engine = AlertEngine::default();
    let message = "Je vais contacter mon avocat";
    let trigger = engine.detect_trigger(message);
    assert!(matches!(trigger, Some(AlertTrigger::LegalSituation)));
}

#[test]
fn test_detect_threat_trigger() {
    let engine = AlertEngine::default();
    let message = "Je vais te frapper";
    let trigger = engine.detect_trigger(message);
    assert!(matches!(trigger, Some(AlertTrigger::Threat)));
}

#[test]
fn test_no_trigger_on_normal_message() {
    let engine = AlertEngine::default();
    let message = "Bonjour, je voudrais des informations";
    let trigger = engine.detect_trigger(message);
    assert!(trigger.is_none());
}

#[test]
fn test_detection_is_case_insensitive() {
    let engine = AlertEngine::default();
    let trigger = engine.detect_trigger("JE VAIS CONTACTER MON AVOCAT");
    assert!(matches!(trigger, Some(AlertTrigger::LegalSituation)));
}

#[test]
fn test_legal_wins_over_threat() {
    let engine = AlertEngine::default();
    let trigger = engine.detect_trigger("je vais te tuer et appeler mon avocat");
    assert!(matches!(trigger, Some(AlertTrigger::LegalSituation)));
}
