use arbor::extract::{
    CallContext, extract_calls, extract_calls_in_range, extract_calls_in_range_with_context,
    extract_imports, extract_none_sources, extract_raises,
};
use arbor::strmap::StrMap;
use arbor::syntree::{SynNode, parse_source};
use arbor::types::NoneSourceKind;

fn parse_python(code: &str) -> SynNode {
    parse_source(code).expect("source should parse")
}

#[test]
fn test_extract_simple_raise() {
    let code = r#"
def foo():
    raise ValueError("error message")
"#;
    let tree = parse_python(code);
    let raises = extract_raises(&tree, "test.py");

    assert_eq!(raises.len(), 1);
    assert_eq!(raises[0].exception_type, "ValueError");
    assert_eq!(raises[0].message, Some("error message".to_string()));
}

#[test]
fn test_extract_raise_no_args() {
    let code = r#"
def foo():
    raise KeyError
"#;
    let tree = parse_python(code);
    let raises = extract_raises(&tree, "test.py");

    assert_eq!(raises.len(), 1);
    assert_eq!(raises[0].exception_type, "KeyError");
    assert_eq!(raises[0].message, None);
}

#[test]
fn test_extract_bare_raise() {
    let code = r#"
try:
    something()
except:
    raise
"#;
    let tree = parse_python(code);
    let raises = extract_raises(&tree, "test.py");

    assert_eq!(raises.len(), 1);
    assert_eq!(raises[0].exception_type, "(re-raise)");
    assert_eq!(raises[0].message, None);
    assert!(raises[0].definition_location.is_none());
}

#[test]
fn test_extract_raise_with_condition() {
    let code = r#"
def foo(x):
    if x < 0:
        raise ValueError("must be positive")
"#;
    let tree = parse_python(code);
    let raises = extract_raises(&tree, "test.py");

    assert_eq!(raises.len(), 1);
    assert_eq!(raises[0].condition, Some("x < 0".to_string()));
}

#[test]
fn test_extract_qualified_raise() {
    let code = r#"
def foo():
    raise requests.exceptions.ConnectionError("failed")
"#;
    let tree = parse_python(code);
    let raises = extract_raises(&tree, "test.py");

    assert_eq!(raises.len(), 1);
    assert_eq!(raises[0].exception_type, "requests.exceptions.ConnectionError");
}

#[test]
fn test_extract_exact_message() {
    let code = "def f():\n    raise ValueError(\"x\")\n";
    let tree = parse_python(code);
    let raises = extract_raises(&tree, "test.py");

    assert_eq!(raises.len(), 1);
    assert_eq!(raises[0].exception_type, "ValueError");
    assert_eq!(raises[0].message, Some("x".to_string()));
}

#[test]
fn test_extract_explicit_none_return() {
    let code = r#"
def foo():
    return None
"#;
    let tree = parse_python(code);
    let sources = extract_none_sources(&tree, "test.py");

    assert_eq!(sources.len(), 1);
    assert_eq!(sources[0].kind, NoneSourceKind::ExplicitReturn);
}

#[test]
fn test_extract_implicit_none_return() {
    let code = r#"
def foo():
    print("hello")
    return
"#;
    let tree = parse_python(code);
    let sources = extract_none_sources(&tree, "test.py");

    assert_eq!(sources.len(), 1);
    assert_eq!(sources[0].kind, NoneSourceKind::ImplicitReturn);
}

#[test]
fn test_extract_dict_get() {
    let code = r#"
def foo():
    d = {}
    return d.get("key")
"#;
    let tree = parse_python(code);
    let sources = extract_none_sources(&tree, "test.py");

    assert_eq!(sources.len(), 1);
    assert_eq!(sources[0].kind, NoneSourceKind::CollectionAccess);
}

#[test]
fn test_extract_calls() {
    let code = r#"
def foo():
    bar()
    obj.method()
    module.func()
"#;
    let tree = parse_python(code);
    let calls = extract_calls(&tree);

    assert_eq!(calls.len(), 3);
    assert!(calls.contains(&"bar".to_string()));
    assert!(calls.contains(&"obj.method".to_string()));
    assert!(calls.contains(&"module.func".to_string()));
}

#[test]
fn test_extract_calls_in_range() {
    let code = r#"
def foo():
    bar()
    baz()

def other():
    qux()
"#;
    let tree = parse_python(code);
    let calls = extract_calls_in_range(&tree, 2, 4);

    assert_eq!(calls.len(), 2);
    assert!(calls.contains(&"bar".to_string()));
    assert!(calls.contains(&"baz".to_string()));
    assert!(!calls.contains(&"qux".to_string()));
}

#[test]
fn test_extract_calls_with_context() {
    let code = r#"
class Widget:
    def refresh(self):
        self.redraw()
        helper()
"#;
    let tree = parse_python(code);
    let mut imports: StrMap<String> = StrMap::new();
    imports.insert("helper".to_string(), "toolbox.helper".to_string());
    let context = CallContext {
        current_module: "widgets".to_string(),
        current_class: Some("Widget".to_string()),
        imports,
    };
    let calls = extract_calls_in_range_with_context(&tree, 1, 5, &context);

    assert!(calls.contains(&"widgets.Widget.redraw".to_string()));
    assert!(calls.contains(&"toolbox.helper".to_string()));
}

#[test]
fn test_extract_imports_from() {
    let code = r#"
from requests.exceptions import ConnectionError, Timeout
from os.path import join as path_join
"#;
    let tree = parse_python(code);
    let imports = extract_imports(&tree);

    assert_eq!(
        imports.get("ConnectionError").map(|s| s.as_str()),
        Some("requests.exceptions.ConnectionError")
    );
    assert_eq!(
        imports.get("Timeout").map(|s| s.as_str()),
        Some("requests.exceptions.Timeout")
    );
    assert_eq!(imports.get("path_join").map(|s| s.as_str()), Some("os.path.join"));
}

#[test]
fn test_extract_imports_regular() {
    let code = r#"
import requests
import os.path
import json as j
"#;
    let tree = parse_python(code);
    let imports = extract_imports(&tree);

    assert_eq!(imports.get("requests").map(|s| s.as_str()), Some("requests"));
    assert_eq!(imports.get("path").map(|s| s.as_str()), Some("os.path"));
    assert_eq!(imports.get("j").map(|s| s.as_str()), Some("json"));
}
