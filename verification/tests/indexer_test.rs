use arbor::indexer::{Indexer, SourceFile, hash_content, path_to_module};

fn fixture_files() -> Vec<SourceFile> {
    let base = "fx".to_string();
    let mut files = Vec::new();
    files.push(SourceFile {
        path: "fx/simple_module.py".to_string(),
        base: base.clone(),
        content: simple_module_text(),
    });
    files.push(SourceFile {
        path: "fx/mypackage/__init__.py".to_string(),
        base: base.clone(),
        content: "from .api import get_data\nfrom .models import User\n".to_string(),
    });
    files.push(SourceFile {
        path: "fx/mypackage/api.py".to_string(),
        base: base.clone(),
        content: api_module_text(),
    });
    files.push(SourceFile {
        path: "fx/mypackage/models.py".to_string(),
        base: base.clone(),
        content: "class User:\n    pass\n\n\nclass Admin:\n    pass\n".to_string(),
    });
    files.push(SourceFile {
        path: "fx/mypackage/utils.py".to_string(),
        base: base.clone(),
        content: "def helper_function():\n    return 1\n".to_string(),
    });
    files
}

fn simple_module_text() -> String {
    let mut text = String::new();
    text.push_str("\"\"\"A small module.\"\"\"\n");
    text.push_str("\n");
    text.push_str("\n");
    text.push_str("def simple_function():\n");
    text.push_str("    return 42\n");
    text.push_str("\n");
    text.push_str("\n");
    text.push_str("def another_function():\n");
    text.push_str("    simple_function()\n");
    text.push_str("\n");
    text.push_str("\n");
    text.push_str("class SimpleClass:\n");
    text.push_str("    def method_one(self):\n");
    text.push_str("        pass\n");
    text.push_str("\n");
    text.push_str("    def method_two(self):\n");
    text.push_str("        self.method_one()\n");
    text
}

fn api_module_text() -> String {
    let mut text = String::new();
    text.push_str("def get_data():\n");
    text.push_str("    return {}\n");
    text.push_str("\n");
    text.push_str("\n");
    text.push_str("def post_data():\n");
    text.push_str("    return None\n");
    text.push_str("\n");
    text.push_str("\n");
    text.push_str("class APIClient:\n");
    text.push_str("    def request(self):\n");
    text.push_str("        pass\n");
    text.push_str("\n");
    text.push_str("    def get(self):\n");
    text.push_str("        pass\n");
    text
}

#[test]
fn test_path_to_module() {
    assert_eq!(
        path_to_module("/project/src/mypackage/api.py", "/project/src"),
        "mypackage.api"
    );
    assert_eq!(
        path_to_module("/project/src/mypackage/__init__.py", "/project/src"),
        "mypackage"
    );
    assert_eq!(path_to_module("/project/src/utils.py", "/project/src"), "utils");
}

#[test]
fn test_hash_content() {
    let hash1 = hash_content("hello world");
    let hash2 = hash_content("hello world");
    let hash3 = hash_content("different");

    assert_eq!(hash1, hash2);
    assert_ne!(hash1, hash3);
}

#[test]
fn test_index_fixtures() {
    let indexer = Indexer::new().unwrap();
    let index = indexer.index_files(&fixture_files());

    println!("Indexed {} symbols", index.len());

    assert!(index.contains("simple_module.simple_function"));
    assert!(index.contains("simple_module.another_function"));
    assert!(index.contains("simple_module.SimpleClass"));
    assert!(index.contains("simple_module.SimpleClass.method_one"));
    assert!(index.contains("simple_module.SimpleClass.method_two"));

    assert!(index.contains("mypackage.api.get_data"));
    assert!(index.contains("mypackage.api.post_data"));
    assert!(index.contains("mypackage.api.APIClient"));
    assert!(index.contains("mypackage.api.APIClient.request"));
    assert!(index.contains("mypackage.api.APIClient.get"));
    assert!(index.contains("mypackage.models.User"));
    assert!(index.contains("mypackage.models.Admin"));
    assert!(index.contains("mypackage.utils.helper_function"));
}

#[test]
fn test_index_locations_are_correct() {
    let indexer = Indexer::new().unwrap();
    let index = indexer.index_files(&fixture_files());

    let simple_fn = index.get("simple_module.simple_function").unwrap();
    assert!(simple_fn.file_path.ends_with("simple_module.py"));
    assert_eq!(simple_fn.line_start, 4);
    assert!(!simple_fn.is_method);

    let method = index.get("simple_module.SimpleClass.method_one").unwrap();
    assert!(method.is_method);
    assert_eq!(method.parent_class, Some("SimpleClass".to_string()));
}

#[test]
fn test_index_file_hashes() {
    let indexer = Indexer::new().unwrap();
    let index = indexer.index_files(&fixture_files());

    assert!(!index.file_hashes.is_empty());
    assert!(index.indexed_at.is_some());
}

#[test]
fn test_reindex_same_content_same_keys_and_hashes() {
    let indexer = Indexer::new().unwrap();
    let first = indexer.index_files(&fixture_files());
    let second = indexer.index_files(&fixture_files());

    let mut first_keys = first.symbols.keys();
    let mut second_keys = second.symbols.keys();
    first_keys.sort();
    second_keys.sort();
    assert_eq!(first_keys, second_keys);

    let path = "fx/simple_module.py";
    let stored_first = first.file_hashes.get(path).unwrap().clone();
    let stored_second = second.file_hashes.get(path).unwrap().clone();
    assert_eq!(stored_first, stored_second);

    let unchanged = hash_content(&simple_module_text());
    assert!(!first.file_changed(path, &unchanged));

    let mut changed_text = simple_module_text();
    changed_text.push(' ');
    let changed = hash_content(&changed_text);
    assert_ne!(unchanged, changed);
    assert!(first.file_changed(path, &changed));
}

#[test]
fn test_simple_function_entry_line_and_kind() {
    let indexer = Indexer::new().unwrap();
    let files = vec![SourceFile {
        path: "proj/simple_module.py".to_string(),
        base: "proj".to_string(),
        content: simple_module_text(),
    }];
    let index = indexer.index_files(&files);

    let entry = index.get("simple_module.simple_function").unwrap();
    assert_eq!(entry.line_start, 4);
    assert!(!entry.is_method);
}

#[test]
fn test_indexed_spans_are_ordered() {
    let indexer = Indexer::new().unwrap();
    let index = indexer.index_files(&fixture_files());
    assert!(index.len() > 0);
    for i in 0..index.symbols.entry_count() {
        let (_, loc) = index.symbols.entry_at(i);
        assert!(loc.line_start >= 1);
        assert!(loc.line_start <= loc.line_end);
        assert_eq!(loc.is_method, loc.parent_class.is_some());
    }
}
