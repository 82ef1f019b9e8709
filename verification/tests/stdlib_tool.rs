use workflow_engine::script::ScriptValue;
use workflow_engine::tool::{builtin_tool_impl, tool_impl, Tool, ToolError};
use workflow_engine::variable::VariableRef;
use workflow_engine::variables::{LateBoundString, ValueFormatter};

#[test]
fn test_can_parse_simple_tool() {
    let tool = tool_impl(ScriptValue::Str("a".to_string()));
    assert!(!tool.is_builtin());
}

#[test]
fn test_can_parse_formatter_in_tool() {
    let v = VariableRef::new();
    let formatter = ValueFormatter::new(
        "{}",
        vec![LateBoundString::with_identifier(v.identifier().to_string())],
    );
    let tool = tool_impl(ScriptValue::Formatter(formatter));
    assert!(!tool.is_builtin());
}

#[test]
fn test_get_path_from_tool_with_fmt() {
    let v = VariableRef::new();
    let formatter = ValueFormatter::new(
        "{}",
        vec![LateBoundString::with_identifier(v.identifier().to_string())],
    );
    let tool = tool_impl(ScriptValue::Formatter(formatter));
    assert_eq!(tool.path(&"foo".to_string(), "").unwrap(), "foo".to_string());
}

#[test]
fn test_get_path_from_tool_with_variable() {
    let v = VariableRef::new();
    let tool = tool_impl(ScriptValue::VariableRef(v));
    assert_eq!(tool.path(&"foo".to_string(), "").unwrap(), "foo".to_string());
}

#[test]
fn test_builtin_tool_name_returns_name() {
    let tool = builtin_tool_impl("ls");
    assert_eq!(tool.name(), "ls");
}

#[test]
fn test_path_relative_joins_working_dir() {
    let tool = tool_impl(ScriptValue::Str("bin/foo.sh".to_string()));
    assert_eq!(
        tool.path(&"".to_string(), "/work").unwrap(),
        "/work/bin/foo.sh".to_string()
    );
}

#[test]
fn test_path_absolute_ignores_working_dir() {
    let tool = tool_impl(ScriptValue::Str("/opt/foo.sh".to_string()));
    assert_eq!(
        tool.path(&"".to_string(), "/work").unwrap(),
        "/opt/foo.sh".to_string()
    );
}

#[test]
fn test_real_path_fails_for_missing_file() {
    let tool = tool_impl(ScriptValue::Str("bin/foo.sh".to_string()));
    let err = tool.real_path(&"".to_string(), "/work").unwrap_err();
    assert!(matches!(&err, ToolError::NotFound(p) if p == "/work/bin/foo.sh"));
    assert_eq!(
        err.message(),
        "no executable found at '/work/bin/foo.sh'".to_string()
    );
}

#[test]
fn test_real_path_finds_a_builtin() {
    // `sh` is on every PATH this engine targets.
    let tool = builtin_tool_impl("sh");
    assert!(tool.real_path(&"".to_string(), "").is_ok());
}

#[test]
fn test_tool_without_path_has_no_path() {
    let tool = Tool { builtin: false, path: None, name: "x".to_string() };
    assert!(matches!(
        tool.path(&"".to_string(), "").unwrap_err(),
        ToolError::NoPath
    ));
}
