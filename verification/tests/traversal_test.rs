use arbor::indexer::{Indexer, SourceFile};
use arbor::resolver::PythonResolver;
use arbor::strmap::StrMap;
use arbor::traversal::Traverser;

fn exceptions_source() -> String {
    let mut text = String::new();
    text.push_str("def simple_raise():\n");
    text.push_str("    raise ValueError(\"bad value\")\n");
    text.push_str("\n");
    text.push_str("\n");
    text.push_str("def explicit_none_return():\n");
    text.push_str("    return None\n");
    text
}

fn custom_exceptions_source() -> String {
    let mut text = String::new();
    text.push_str("\"\"\"Project-defined failures.\"\"\"\n");
    text.push_str("\n");
    text.push_str("\n");
    text.push_str("class CustomError(Exception):\n");
    text.push_str("    pass\n");
    text.push_str("\n");
    text.push_str("\n");
    text.push_str("def raise_custom():\n");
    text.push_str("    raise CustomError(\"boom\")\n");
    text
}

fn simple_source() -> String {
    let mut text = String::new();
    text.push_str("\"\"\"A small module.\"\"\"\n");
    text.push_str("\n");
    text.push_str("\n");
    text.push_str("def simple_function():\n");
    text.push_str("    return 42\n");
    text.push_str("\n");
    text.push_str("\n");
    text.push_str("def another_function():\n");
    text.push_str("    simple_function()\n");
    text
}

fn recursive_source() -> String {
    let mut text = String::new();
    text.push_str("def spin():\n");
    text.push_str("    spin()\n");
    text
}

fn fixture_sources() -> Vec<SourceFile> {
    vec![
        SourceFile {
            path: "fx/simple_module.py".to_string(),
            base: "fx".to_string(),
            content: simple_source(),
        },
        SourceFile {
            path: "fx/exceptions_and_none.py".to_string(),
            base: "fx".to_string(),
            content: exceptions_source(),
        },
        SourceFile {
            path: "fx/custom_exceptions.py".to_string(),
            base: "fx".to_string(),
            content: custom_exceptions_source(),
        },
        SourceFile {
            path: "fx/recursive_module.py".to_string(),
            base: "fx".to_string(),
            content: recursive_source(),
        },
    ]
}

fn fixture_snapshot() -> StrMap<String> {
    let mut files: StrMap<String> = StrMap::new();
    for f in fixture_sources() {
        files.insert(f.path.clone(), f.content.clone());
    }
    files
}

fn fixture_traverser(max_depth: usize) -> Traverser {
    let indexer = Indexer::new().unwrap();
    let index = indexer.index_files(&fixture_sources());
    let resolver = PythonResolver::new(vec!["fx".to_string()], Vec::new()).with_files(
        fixture_snapshot(),
    );
    Traverser::new(resolver, max_depth).unwrap().with_symbol_index(index)
}

#[test]
fn test_traverser_creation() {
    let resolver = PythonResolver::new(Vec::new(), Vec::new());
    let traverser = Traverser::new(resolver, 10);
    assert!(traverser.is_ok());
}

#[test]
fn test_analyze_simple_function() {
    let traverser = fixture_traverser(10);
    let analysis = traverser.analyze_function("simple_module.simple_function").unwrap();

    assert_eq!(analysis.function_id, "simple_module.simple_function");
    assert!(analysis.functions_traced >= 1);
}

#[test]
fn test_analyze_function_with_raises() {
    let traverser = fixture_traverser(10);
    let analysis = traverser.analyze_function("exceptions_and_none.simple_raise").unwrap();

    assert_eq!(analysis.raises.len(), 1);
    assert_eq!(analysis.raises[0].exception_type, "ValueError");
}

#[test]
fn test_analyze_function_with_none_return() {
    let traverser = fixture_traverser(10);
    let analysis = traverser.analyze_function("exceptions_and_none.explicit_none_return").unwrap();

    assert_eq!(analysis.none_sources.len(), 1);
}

#[test]
fn test_analyze_nonexistent_function() {
    let resolver = PythonResolver::new(vec!["fx".to_string()], Vec::new()).with_files(
        fixture_snapshot(),
    );
    let traverser = Traverser::new(resolver, 10).unwrap();

    let analysis = traverser.analyze_function("nonexistent.function").unwrap();

    assert!(analysis.raises.is_empty());
    assert!(analysis.none_sources.is_empty());
}

#[test]
fn test_exception_definition_lookup() {
    let traverser = fixture_traverser(10);
    let analysis = traverser.analyze_function("custom_exceptions.raise_custom").unwrap();

    assert_eq!(analysis.raises.len(), 1);
    assert_eq!(analysis.raises[0].exception_type, "CustomError");

    assert!(analysis.raises[0].definition_location.is_some());
    let def_loc = analysis.raises[0].definition_location.as_ref().unwrap();
    assert!(def_loc.file.contains("custom_exceptions.py"));
    assert_eq!(def_loc.line, 4);
}

#[test]
fn test_zero_depth_visits_only_root() {
    let traverser = fixture_traverser(0);
    let analysis = traverser.analyze_function("simple_module.another_function").unwrap();

    assert_eq!(analysis.functions_traced, 1);
    assert_eq!(analysis.call_depth, 0);
}

#[test]
fn test_self_recursive_function_terminates() {
    let traverser = fixture_traverser(25);
    let analysis = traverser.analyze_function("recursive_module.spin").unwrap();

    assert_eq!(analysis.functions_traced, 1);
    assert_eq!(analysis.function_id, "recursive_module.spin");
}
