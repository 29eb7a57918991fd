use arbor::resolver::PythonResolver;
use arbor::strmap::StrMap;

fn fixture_snapshot() -> StrMap<String> {
    let mut files: StrMap<String> = StrMap::new();
    files.insert("fx/simple_module.py".to_string(), simple_module_source());
    files.insert(
        "fx/mypackage/__init__.py".to_string(),
        "from .api import get_data\nfrom .models import User\n".to_string(),
    );
    files.insert("fx/mypackage/api.py".to_string(), api_source());
    files.insert(
        "fx/mypackage/models.py".to_string(),
        "class User:\n    pass\n\n\nclass Admin:\n    pass\n".to_string(),
    );
    files.insert(
        "fx/mypackage/utils.py".to_string(),
        "def helper_function():\n    return 1\n".to_string(),
    );
    files
}

fn simple_module_source() -> String {
    let mut text = String::new();
    text.push_str("\"\"\"A small module.\"\"\"\n");
    text.push_str("\n");
    text.push_str("\n");
    text.push_str("def simple_function():\n");
    text.push_str("    return 42\n");
    text.push_str("\n");
    text.push_str("\n");
    text.push_str("def another_function():\n");
    text.push_str("    simple_function()\n");
    text.push_str("\n");
    text.push_str("\n");
    text.push_str("class SimpleClass:\n");
    text.push_str("    def method_one(self):\n");
    text.push_str("        pass\n");
    text.push_str("\n");
    text.push_str("    def method_two(self):\n");
    text.push_str("        self.method_one()\n");
    text
}

fn api_source() -> String {
    let mut text = String::new();
    text.push_str("def get_data():\n");
    text.push_str("    return {}\n");
    text.push_str("\n");
    text.push_str("\n");
    text.push_str("def post_data():\n");
    text.push_str("    return None\n");
    text.push_str("\n");
    text.push_str("\n");
    text.push_str("class APIClient:\n");
    text.push_str("    def request(self):\n");
    text.push_str("        pass\n");
    text.push_str("\n");
    text.push_str("    def get(self):\n");
    text.push_str("        pass\n");
    text
}

fn fixture_resolver() -> PythonResolver {
    PythonResolver::new(vec!["fx".to_string()], Vec::new()).with_files(fixture_snapshot())
}

#[test]
fn test_resolve_simple_function() {
    let resolver = fixture_resolver();

    let result = resolver.resolve("simple_module.simple_function");
    assert!(result.is_ok());

    let resolved = result.unwrap();
    assert_eq!(resolved.function_name, "simple_function");
    assert!(resolved.file_path.ends_with("simple_module.py"));
    assert_eq!(resolved.line_start, 4);
    assert!(!resolved.is_method);
}

#[test]
fn test_resolve_class_method() {
    let resolver = fixture_resolver();

    let result = resolver.resolve("simple_module.SimpleClass.method_one");
    assert!(result.is_ok());

    let resolved = result.unwrap();
    assert_eq!(resolved.function_name, "SimpleClass.method_one");
    assert!(resolved.is_method);
    assert_eq!(resolved.parent_class, Some("SimpleClass".to_string()));
}

#[test]
fn test_resolve_package_function() {
    let resolver = fixture_resolver();

    let result = resolver.resolve("mypackage.api.get_data");
    assert!(result.is_ok());

    let resolved = result.unwrap();
    assert_eq!(resolved.function_name, "get_data");
    assert!(resolved.file_path.ends_with("api.py"));
}

#[test]
fn test_resolve_reexported_function() {
    let resolver = fixture_resolver();

    let result = resolver.resolve("mypackage.get_data");
    assert!(result.is_ok());

    let resolved = result.unwrap();
    assert_eq!(resolved.function_name, "get_data");
    assert!(resolved.file_path.ends_with("api.py"));
}

#[test]
fn test_resolve_class_in_package() {
    let resolver = fixture_resolver();

    let result = resolver.resolve("mypackage.api.APIClient.request");
    assert!(result.is_ok());

    let resolved = result.unwrap();
    assert_eq!(resolved.function_name, "APIClient.request");
    assert!(resolved.is_method);
}

#[test]
fn test_nonexistent_function() {
    let resolver = fixture_resolver();

    let result = resolver.resolve("nonexistent.function");
    assert!(result.is_err());
}

#[test]
fn test_empty_qualified_name() {
    let resolver = PythonResolver::new(Vec::new(), Vec::new());
    let result = resolver.resolve("");
    assert!(result.is_err());
}

#[test]
fn test_resolve_reexported_class() {
    let resolver = fixture_resolver();

    let result = resolver.resolve("mypackage.User");
    assert!(result.is_ok());

    let resolved = result.unwrap();
    assert_eq!(resolved.function_name, "User");
    assert!(resolved.file_path.ends_with("models.py"));
}

#[test]
fn test_empty_resolver() {
    let resolver = PythonResolver::new(Vec::new(), Vec::new());
    let result = resolver.resolve("nonexistent.function");
    assert!(result.is_err());
}

#[test]
fn test_parse_relative_imports() {
    let content = r#"from .api import get_data, post_data"#;

    let resolver = PythonResolver::new(Vec::new(), Vec::new());
    let imports = resolver.parse_imports(content, "/fake/__init__.py").unwrap();

    assert_eq!(imports.len(), 2);

    let get_data_import = imports.iter().find(|i| i.name == "get_data").unwrap();
    assert_eq!(get_data_import.source_module, ".api");

    let post_data_import = imports.iter().find(|i| i.name == "post_data").unwrap();
    assert_eq!(post_data_import.source_module, ".api");
}

#[test]
fn test_resolve_relative_module() {
    let resolver = fixture_resolver();
    let result = resolver.resolve_relative("fx/mypackage/__init__.py", ".api");
    println!("Resolved .api: {:?}", result.is_some());
    assert_eq!(result, Some("fx/mypackage/api.py".to_string()));
}

#[test]
fn test_explicit_root_takes_precedence() {
    let mut files: StrMap<String> = StrMap::new();
    files.insert(
        "src_root/shared.py".to_string(),
        "def entry():\n    return 1\n".to_string(),
    );
    files.insert(
        "lib_root/shared.py".to_string(),
        "def entry():\n    return 2\n".to_string(),
    );
    let resolver = PythonResolver::new(
        vec!["src_root".to_string()],
        vec!["lib_root".to_string()],
    ).with_files(files);

    let resolved = resolver.resolve("shared.entry").unwrap();
    assert_eq!(resolved.file_path, "src_root/shared.py");
}
