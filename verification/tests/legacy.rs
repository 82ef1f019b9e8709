use workflow_engine::legacy::{validate_name, Tool, Variable};
use workflow_engine::parse_context::NoStringInterp;

#[test]
fn validate_name_success() {
    assert_eq!(validate_name("foo").unwrap(), "foo".to_string());
    assert_eq!(validate_name("1").unwrap(), "1".to_string());
}

#[test]
fn validate_name_fail_empty() {
    let err = validate_name("").unwrap_err();
    assert_eq!(
        err.message(),
        "Invalid attribute 'name', cannot be empty got ''".to_string()
    );
}

#[test]
fn validate_name_fail_spaces() {
    assert!(validate_name("a b").is_err());
}

#[test]
fn test_builtin_pass() {
    assert_eq!(
        Tool::builtin("foo").unwrap(),
        Tool { name: "foo".to_string(), path: None, builtin: true, root: None }
    );
}

#[test]
fn test_builtin_fail() {
    assert!(Tool::builtin("").is_err());
}

#[test]
fn test_path_based_pass() {
    assert_eq!(
        Tool::path_based("foo", "my/path", "").unwrap(),
        Tool {
            name: "foo".to_string(),
            path: Some("my/path".to_string()),
            builtin: false,
            root: Some("".to_string()),
        }
    );
}

#[test]
fn test_path_based_fail_empty_path() {
    let err = Tool::path_based("foo", "", "").unwrap_err();
    assert_eq!(
        err.message(),
        "Invalid attribute 'path', cannot be empty got ''".to_string()
    );
}

#[test]
fn test_path_based_fail_spaces_in_path() {
    assert!(Tool::path_based("foo", "my path", "").is_err());
}

#[test]
fn test_candidate_path_joins_root() {
    let tool = Tool::path_based("foo", "bin/foo.sh", "/work").unwrap();
    assert_eq!(
        tool.candidate_path(&NoStringInterp {}),
        Some("/work/bin/foo.sh".to_string())
    );
}

#[test]
fn test_candidate_path_absolute() {
    let tool = Tool::path_based("foo", "/abs/foo.sh", "/work").unwrap();
    assert_eq!(
        tool.candidate_path(&NoStringInterp {}),
        Some("/abs/foo.sh".to_string())
    );
}

#[test]
fn test_cmd_missing_file_is_none() {
    let tool = Tool::path_based("foo", "bin/foo.sh", "/work").unwrap();
    assert_eq!(tool.cmd(&NoStringInterp {}), None);
}

#[test]
fn test_cmd_finds_builtin() {
    let tool = Tool::builtin("sh").unwrap();
    assert!(tool.cmd(&NoStringInterp {}).is_some());
}

#[test]
fn test_frozen_tool_keeps_fields() {
    let tool = Tool::path_based("foo", "bin/foo.sh", "/work").unwrap();
    let frozen = tool.freeze(&NoStringInterp {});
    assert_eq!(frozen.name, "foo".to_string());
    assert!(!frozen.builtin);
    assert_eq!(frozen.path, Some("bin/foo.sh".to_string()));
    assert_eq!(frozen.cmd, None);
}

#[test]
fn test_variable_scoped_read_and_write() {
    let mut var = Variable::for_test("foo", Some("init"), None, None);
    assert_eq!(var.read_value("anyone").unwrap(), "init".to_string());
    var.write_value("new", "writer").unwrap();
    assert_eq!(var.read_value("anyone").unwrap(), "new".to_string());
}

#[test]
fn test_variable_restricted_read_fails() {
    let var = Variable::for_test_restricted("foo", "B");
    let err = var.read_value("A").unwrap_err();
    assert_eq!(
        err.message(),
        "'A' not in allowed scopes to read var 'foo'".to_string()
    );
}

#[test]
fn test_variable_restricted_write_fails() {
    let mut var = Variable::for_test_restricted("foo", "B");
    let err = var.write_value("v", "A").unwrap_err();
    assert_eq!(
        err.message(),
        "'A' not in allowed scopes to write var 'foo'".to_string()
    );
}

#[test]
fn test_variable_restricted_allows_member() {
    let mut var = Variable::for_test_restricted("foo", "B");
    var.write_value("v", "B").unwrap();
    assert_eq!(var.read_value("B").unwrap(), "v".to_string());
}
