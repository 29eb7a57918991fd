use arbor::database::{ArborDatabase, Environment, SymbolRecord};
use arbor::indexer::{SymbolIndex, SymbolLocation};
use arbor::query::{QueryError, query_diff, query_risk, query_signature};
use arbor::types::{CodeLocation, FunctionAnalysis};

fn sample_environment() -> Environment {
    Environment {
        python_version: "3.11".to_string(),
        venv_path: None,
        site_packages: Vec::new(),
        python_path: vec![".".to_string()],
    }
}

fn sample_index() -> SymbolIndex {
    let mut index = SymbolIndex::new();
    index.add(
        "pkg.alpha".to_string(),
        SymbolLocation {
            file_path: "pkg/alpha.py".to_string(),
            line_start: 3,
            line_end: 9,
            is_method: false,
            parent_class: None,
        },
    );
    index.add(
        "pkg.Widget.draw".to_string(),
        SymbolLocation {
            file_path: "pkg/widget.py".to_string(),
            line_start: 14,
            line_end: 20,
            is_method: true,
            parent_class: Some("Widget".to_string()),
        },
    );
    index.set_file_hash("pkg/alpha.py".to_string(), "abc123".to_string());
    index.mark_indexed();
    index
}

#[test]
fn test_symbol_records_round_trip() {
    let index = sample_index();
    let records = index.to_records();
    let hashes = index.hash_records();
    let rebuilt = SymbolIndex::from_records(records, hashes, index.indexed_at);

    assert_eq!(rebuilt.len(), index.len());

    let original = index.get("pkg.alpha").unwrap();
    let copy = rebuilt.get("pkg.alpha").unwrap();
    assert_eq!(copy.file_path, original.file_path);
    assert_eq!(copy.line_start, original.line_start);
    assert_eq!(copy.line_end, original.line_end);
    assert_eq!(copy.is_method, original.is_method);
    assert_eq!(copy.parent_class, original.parent_class);

    let method = rebuilt.get("pkg.Widget.draw").unwrap();
    assert_eq!(method.file_path, "pkg/widget.py");
    assert_eq!(method.line_start, 14);
    assert_eq!(method.line_end, 20);
    assert!(method.is_method);
    assert_eq!(method.parent_class, Some("Widget".to_string()));

    assert_eq!(
        rebuilt.file_hashes.get("pkg/alpha.py").map(|h| h.as_str()),
        Some("abc123")
    );
    assert_eq!(rebuilt.indexed_at, index.indexed_at);
}

#[test]
fn test_records_overwrite_by_name() {
    let records = vec![
        SymbolRecord {
            qualified_name: "m.f".to_string(),
            file_path: "old.py".to_string(),
            line_start: 1,
            line_end: 2,
            is_method: false,
            parent_class: None,
        },
        SymbolRecord {
            qualified_name: "m.f".to_string(),
            file_path: "new.py".to_string(),
            line_start: 5,
            line_end: 6,
            is_method: false,
            parent_class: None,
        },
    ];
    let rebuilt = SymbolIndex::from_records(records, Vec::new(), None);
    assert_eq!(rebuilt.len(), 1);
    assert_eq!(rebuilt.get("m.f").unwrap().file_path, "new.py");
}

#[test]
fn test_database_add_and_query() {
    let mut db = ArborDatabase::new(sample_environment());
    let location = CodeLocation::new("pkg/alpha.py".to_string(), 3);
    let analysis = FunctionAnalysis::new(
        "pkg.alpha".to_string(),
        "def alpha(...)".to_string(),
        location,
    );
    db.add_function(analysis);

    assert_eq!(db.function_count(), 1);

    let summary = query_risk(&db, "pkg.alpha").unwrap();
    assert!(summary.contains("Low"));
    assert!(summary.contains("0 exceptions"));

    let signature = query_signature(&db, "pkg.alpha").unwrap();
    assert!(signature.contains("def alpha(...)"));
    assert!(signature.contains("pkg/alpha.py:3"));

    let diff = query_diff(&db, "pkg.alpha").unwrap();
    assert!(diff.contains("pkg.alpha"));

    let missing = query_risk(&db, "pkg.beta");
    assert!(matches!(missing, Err(QueryError::FunctionNotFound(_))));
}

#[test]
fn test_database_resolve_from_index() {
    let mut db = ArborDatabase::new(sample_environment());
    db.symbol_index = sample_index();

    let resolved = db.resolve_from_index("pkg.Widget.draw").unwrap();
    assert_eq!(resolved.function_name, "pkg.Widget.draw");
    assert_eq!(resolved.file_path, "pkg/widget.py");
    assert!(resolved.is_method);

    assert!(db.resolve_from_index("pkg.unknown").is_none());
}
