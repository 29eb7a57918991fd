use arbor::grouping::{RecoveryStrategy, detect_semantic_category, extract_package, suggest_groups};
use arbor::types::{CodeLocation, RaiseStatement};

fn make_raise(exc_type: &str, qualified_type: &str) -> RaiseStatement {
    RaiseStatement::new(
        exc_type.to_string(),
        qualified_type.to_string(),
        CodeLocation::new("test.py".to_string(), 1),
    )
}

#[test]
fn test_recovery_strategy_detection() {
    assert_eq!(
        RecoveryStrategy::from_exception_type("ConnectionTimeout"),
        RecoveryStrategy::Retry
    );
    assert_eq!(
        RecoveryStrategy::from_exception_type("AuthenticationError"),
        RecoveryStrategy::ReAuthenticate
    );
    assert_eq!(
        RecoveryStrategy::from_exception_type("ValidationError"),
        RecoveryStrategy::FixInput
    );
    assert_eq!(
        RecoveryStrategy::from_exception_type("ResourceNotFound"),
        RecoveryStrategy::Ignore
    );
    assert_eq!(
        RecoveryStrategy::from_exception_type("UnknownError"),
        RecoveryStrategy::Abort
    );
}

#[test]
fn test_semantic_category_detection() {
    assert_eq!(detect_semantic_category("ConnectionError"), Some("Connection".to_string()));
    assert_eq!(detect_semantic_category("TimeoutError"), Some("Timeout".to_string()));
    assert_eq!(detect_semantic_category("AuthError"), Some("Authentication".to_string()));
    assert_eq!(detect_semantic_category("CustomError"), None);
}

#[test]
fn test_package_extraction() {
    assert_eq!(
        extract_package("requests.exceptions.ConnectionError"),
        Some("requests".to_string())
    );
    assert_eq!(extract_package("ValueError"), None);
}

#[test]
fn test_group_by_package() {
    let raises = vec![
        make_raise("ConnectionError", "requests.exceptions.ConnectionError"),
        make_raise("Timeout", "requests.exceptions.Timeout"),
        make_raise("HTTPError", "urllib3.exceptions.HTTPError"),
    ];

    let suggestions = suggest_groups(&raises);

    let requests_group = suggestions.iter().find(|s| s.group_name.contains("requests"));
    assert!(requests_group.is_some());
    assert_eq!(requests_group.unwrap().exceptions.len(), 2);
}

#[test]
fn test_empty_exceptions() {
    let suggestions = suggest_groups(&Vec::new());
    assert!(suggestions.is_empty());
}

#[test]
fn test_single_exception_no_groups() {
    let raises = vec![make_raise("ValueError", "ValueError")];
    let suggestions = suggest_groups(&raises);
    assert!(suggestions.is_empty());
}
