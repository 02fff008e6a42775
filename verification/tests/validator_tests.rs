use sellify_core::knowledge::{KnowledgeBaseEngine, Product};
use sellify_core::validator::{AntiHallucinationEngine, ValidationError};

fn product(id: &str) -> Product {
    Product {
        id: id.to_string(),
        name: "Test Product".to_string(),
        short_description: "A test product".to_string(),
        long_description: "A longer description".to_string(),
        price_cents: 9999,
        keywords: vec!["test".to_string()],
        objections: vec![],
        media: vec![],
    }
}

#[test]
fn test_reject_forbidden_words() {
    let engine = AntiHallucinationEngine::new();
    let text = "Je suis une AI qui peut vous aider";
    assert!(engine.validate_after_ai(text).is_err());
}

#[test]
fn test_accept_valid_text() {
    let engine = AntiHallucinationEngine::new();
    let text = "Bonjour, comment puis-je vous aider ?";
    assert!(engine.validate_after_ai(text).is_ok());
}

#[test]
fn test_forbidden_word_detected_case_insensitively() {
    let engine = AntiHallucinationEngine::new();
    assert!(engine.validate_after_ai("je suis un ROBOT").is_err());
    assert!(engine.validate_after_ai("une escalade est prévue").is_err());
}

#[test]
fn test_rejection_names_the_forbidden_word() {
    let engine = AntiHallucinationEngine::new();
    match engine.validate_after_ai("Je suis une AI") {
        Err(ValidationError::ForbiddenWord { word }) => assert_eq!(word, "AI"),
        other => panic!("expected a forbidden-word rejection, got {:?}", other),
    }
    let fallback = engine.get_fallback_message();
    assert_eq!(
        fallback,
        "Désolé, je n'ai pas bien compris votre demande. Pouvez-vous préciser ?"
    );
}

#[test]
fn test_accepted_text_round_trips() {
    let engine = AntiHallucinationEngine::new();
    let text = "Voici la fiche produit demandée.";
    assert_eq!(engine.validate_after_ai(text).unwrap(), text);
}

#[test]
fn test_length_limit_at_500_characters() {
    let engine = AntiHallucinationEngine::new();
    let ok_text: String = std::iter::repeat('x').take(500).collect();
    assert!(engine.validate_after_ai(&ok_text).is_ok());
    let long_text: String = std::iter::repeat('x').take(501).collect();
    match engine.validate_after_ai(&long_text) {
        Err(ValidationError::TooLong) => {}
        other => panic!("expected a length rejection, got {:?}", other),
    }
}

#[test]
fn test_validate_before_ai_checks_product_and_action() {
    let engine = AntiHallucinationEngine::new();
    let mut kb = KnowledgeBaseEngine::new();
    kb.load_products(vec![product("prod-001")]);

    assert!(engine.validate_before_ai(&kb, "prod-001", "RespondText").is_ok());
    assert_eq!(
        engine.validate_before_ai(&kb, "prod-999", "RespondText"),
        Err(ValidationError::UnknownProduct)
    );
    assert_eq!(
        engine.validate_before_ai(&kb, "prod-001", "LaunchRocket"),
        Err(ValidationError::UnknownAction)
    );
}
