use arbor::database::{ArborDatabase, Environment};
use arbor::query::{
    query_callers, query_chain, query_exception, query_exceptions, query_groups, query_handle,
    query_has, query_list, query_none, query_one_exception, query_one_none, query_package,
    query_quickref, query_search, query_stats,
};
use arbor::types::{CallGraph, CodeLocation, FunctionAnalysis, NoneSource, NoneSourceKind, RaiseStatement};

fn sample_db() -> ArborDatabase {
    let mut db = ArborDatabase::new(Environment {
        python_version: "3.11".to_string(),
        venv_path: None,
        site_packages: Vec::new(),
        python_path: vec![".".to_string()],
    });
    let location = CodeLocation::new("pkg/alpha.py".to_string(), 3);
    let mut analysis = FunctionAnalysis::new(
        "pkg.alpha".to_string(),
        "def alpha(...)".to_string(),
        location,
    );
    let raise_loc = CodeLocation::new("pkg/alpha.py".to_string(), 7)
        .with_column(4)
        .with_function("pkg.alpha".to_string());
    let raise = RaiseStatement::new(
        "TimeoutError".to_string(),
        "TimeoutError".to_string(),
        raise_loc,
    )
    .with_condition("retries > 3".to_string())
    .with_message("took too long".to_string());
    analysis.raises.push(raise);
    let none_loc = CodeLocation::new("pkg/alpha.py".to_string(), 9).with_column(4);
    analysis
        .none_sources
        .push(NoneSource::new(NoneSourceKind::ExplicitReturn, none_loc));
    analysis.functions_traced = 1;
    db.add_function(analysis);
    let mut graph = CallGraph::new();
    graph.add_call("pkg.alpha", "pkg.beta");
    db.dependency_graph = graph;
    db
}

#[test]
fn test_query_has_yes_and_no() {
    let db = sample_db();
    let yes = query_has(&db, "pkg.alpha", "TimeoutError").unwrap();
    assert!(yes.contains("## Yes"));
    assert!(yes.contains("TimeoutError"));
    let no = query_has(&db, "pkg.alpha", "KeyError").unwrap();
    assert!(no.contains("## No"));
}

#[test]
fn test_query_handle_groups_by_strategy() {
    let db = sample_db();
    let handler = query_handle(&db, "pkg.alpha").unwrap();
    assert!(handler.contains("try:"));
    assert!(handler.contains("TimeoutError"));
    assert!(handler.contains("Retry with backoff"));
}

#[test]
fn test_query_exceptions_report() {
    let db = sample_db();
    let report = query_exceptions(&db, "pkg.alpha").unwrap();
    assert!(report.contains("# Exceptions for `pkg.alpha`"));
    assert!(report.contains("TimeoutError"));
    assert!(report.contains("retries > 3"));
    assert!(report.contains("(builtin)"));
}

#[test]
fn test_query_none_report() {
    let db = sample_db();
    let report = query_none(&db, "pkg.alpha").unwrap();
    assert!(report.contains("# None Sources for `pkg.alpha`"));
    assert!(report.contains("explicit return"));
}

#[test]
fn test_query_one_entries() {
    let db = sample_db();
    let one_exc = query_one_exception(&db, "pkg.alpha", "TimeoutError").unwrap();
    assert!(one_exc.contains("Exception: TimeoutError"));
    assert!(one_exc.contains("Message: took too long"));
    assert!(one_exc.contains("Recovery: retry"));
    let one_none = query_one_none(&db, "pkg.alpha", 0).unwrap();
    assert!(one_none.contains("Kind: explicit return"));
    assert!(query_one_none(&db, "pkg.alpha", 5).is_err());
}

#[test]
fn test_query_chain_report() {
    let db = sample_db();
    let chain = query_chain(&db, "pkg.alpha", "TimeoutError").unwrap();
    assert!(chain.contains("# Call Chain: `TimeoutError` in `pkg.alpha`"));
    assert!(chain.contains("raise TimeoutError"));
}

#[test]
fn test_query_callers_report() {
    let db = sample_db();
    let callers = query_callers(&db, "pkg.alpha").unwrap();
    assert!(callers.contains("No callers found"));
}

#[test]
fn test_query_cross_function_reports() {
    let db = sample_db();
    let listing = query_list(&db).unwrap();
    assert!(listing.contains("pkg"));
    assert!(listing.contains("alpha"));

    let exception = query_exception(&db, "TimeoutError").unwrap();
    assert!(exception.contains("# Exception: `TimeoutError`"));
    assert!(exception.contains("pkg.alpha"));

    let package = query_package(&db, "pkg").unwrap();
    assert!(package.contains("# Package Analysis: `pkg`"));
    assert!(package.contains("TimeoutError"));

    let search = query_search(&db, "alpha").unwrap();
    assert!(search.contains("# Search Results"));
    assert!(search.contains("pkg.alpha"));

    let stats = query_stats(&db).unwrap();
    assert!(stats.contains("# Arbor Database Statistics"));
    assert!(stats.contains("| Functions analyzed | 1 |"));

    let groups = query_groups(&db, None).unwrap();
    assert!(groups.contains("No grouping suggestions"));

    assert!(query_quickref().contains("quick reference"));
}
