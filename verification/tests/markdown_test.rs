use arbor::grouping::RecoveryStrategy;
use arbor::markdown::{
    MarkdownTable, format_code_block, format_header, format_key_value, format_list_item,
    format_recovery, format_risk,
};
use arbor::types::RiskLevel;

#[test]
fn test_markdown_table() {
    let mut table = MarkdownTable::new(vec!["Name".to_string(), "Value".to_string()]);
    table.add_row(vec!["foo".to_string(), "bar".to_string()]);
    table.add_row(vec!["baz".to_string(), "qux".to_string()]);

    let output = table.render();
    assert!(output.contains("| Name | Value |"));
    assert!(output.contains("| foo | bar |"));
    assert!(output.contains("| baz | qux |"));
}

#[test]
fn test_format_header() {
    assert_eq!(format_header(1, "Title"), "# Title\n");
    assert_eq!(format_header(2, "Section"), "## Section\n");
    assert_eq!(format_header(3, "Subsection"), "### Subsection\n");
}

#[test]
fn test_format_key_value() {
    assert_eq!(format_key_value("Key", "Value"), "**Key:** Value\n");
}

#[test]
fn test_format_code_block() {
    let code = "print('hello')";
    let output = format_code_block(code, "python");
    assert!(output.contains("```python"));
    assert!(output.contains(code));
    assert!(output.ends_with("```"));
}

#[test]
fn test_format_risk() {
    assert!(format_risk(RiskLevel::High).contains("High"));
    assert!(format_risk(RiskLevel::Medium).contains("Medium"));
    assert!(format_risk(RiskLevel::Low).contains("Low"));
}

#[test]
fn test_format_recovery() {
    assert!(format_recovery(RecoveryStrategy::Retry).contains("retryable"));
    assert!(format_recovery(RecoveryStrategy::Abort).contains("not retryable"));
}

#[test]
fn test_format_list_item() {
    assert_eq!(format_list_item("entry"), "- entry\n");
}
