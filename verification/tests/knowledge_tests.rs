use sellify_core::knowledge::{KnowledgeBaseEngine, Product};

fn create_test_product() -> Product {
    Product {
        id: "prod-001".to_string(),
        name: "Test Product".to_string(),
        short_description: "A test product".to_string(),
        long_description: "A longer description".to_string(),
        price_cents: 9999,
        keywords: vec!["test".to_string(), "product".to_string()],
        objections: vec![],
        media: vec![],
    }
}

#[test]
fn test_load_products() {
    let mut kb = KnowledgeBaseEngine::new();
    let products = vec![create_test_product()];
    kb.load_products(products);
    assert_eq!(kb.get_all_products().len(), 1);
}

#[test]
fn test_get_product_by_id() {
    let mut kb = KnowledgeBaseEngine::new();
    kb.load_products(vec![create_test_product()]);

    assert!(kb.get_product("prod-001").is_some());
    assert!(kb.get_product("prod-999").is_none());
}

#[test]
fn test_is_valid_product() {
    let mut kb = KnowledgeBaseEngine::new();
    kb.load_products(vec![create_test_product()]);

    assert!(kb.is_valid_product("prod-001"));
    assert!(!kb.is_valid_product("invalid"));
}

#[test]
fn test_search_by_keyword() {
    let mut kb = KnowledgeBaseEngine::new();
    kb.load_products(vec![create_test_product()]);

    let results = kb.search_by_keyword("test");
    assert_eq!(results.len(), 1);

    let results = kb.search_by_keyword("nonexistent");
    assert_eq!(results.len(), 0);
}

#[test]
fn test_search_is_case_insensitive() {
    let mut kb = KnowledgeBaseEngine::new();
    kb.load_products(vec![create_test_product()]);

    let results = kb.search_by_keyword("TEST");
    assert_eq!(results.len(), 1);
    assert_eq!(results[0].id, "prod-001");
}

#[test]
fn test_search_on_empty_catalogue() {
    let kb = KnowledgeBaseEngine::new();
    assert_eq!(kb.search_by_keyword("test").len(), 0);
    assert!(kb.get_product("prod-001").is_none());
}
