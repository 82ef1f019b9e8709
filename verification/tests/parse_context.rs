use workflow_engine::legacy::{Tool, Variable};
use workflow_engine::parse_context::{ParseContext, StringInterpolator};
use workflow_engine::variable::EnvVars;

fn ctx() -> ParseContext {
    ParseContext::new("")
}

#[test]
fn test_add_variable_success() {
    let mut ctx = ctx();
    assert!(ctx.add_variable(Variable::for_test("foo", None, None, None)).is_ok());
}

#[test]
fn test_add_variable_twice_fails() {
    let mut ctx = ctx();
    ctx.add_variable(Variable::for_test("foo", None, None, None)).unwrap();
    let err = ctx.add_variable(Variable::for_test("foo", None, None, None)).unwrap_err();
    assert_eq!(
        err.message(),
        "Variable(name = 'foo') already exists in this context".to_string()
    );
}

#[test]
fn test_with_variable_success() {
    let mut ctx = ctx();
    let _ = ctx.add_variable(Variable::for_test("foo", None, None, None));
    let v = ctx.with_variable("foo").unwrap();
    assert_eq!(v.name(), "foo".to_string());
}

#[test]
fn test_with_variable_fails_if_missing_variable() {
    let ctx = ctx();
    let err = ctx.with_variable("foo").unwrap_err();
    assert_eq!(
        err.message(),
        "Variable(name = 'foo') does not exists in this context".to_string()
    );
}

#[test]
fn test_with_variable_mutable_success() {
    let mut ctx = ctx();
    let _ = ctx.add_variable(Variable::for_test("foo", None, None, None));

    ctx.write_variable("foo", "new", "test_writer").unwrap();

    assert_eq!(ctx.read_variable("foo", "test_writer").unwrap(), "new".to_string());
}

#[test]
fn test_write_variable_fails_if_missing_variable() {
    let mut ctx = ctx();
    let err = ctx.write_variable("foo", "new", "writer").unwrap_err();
    assert_eq!(
        err.message(),
        "Variable(name = 'foo') does not exists in this context".to_string()
    );
}

#[test]
fn test_realize_variables_env() {
    let mut ctx = ctx();
    let key = "ENV_VAR_FOR_test_realize_variables_env";
    let mut env = EnvVars::new();
    env.push(key, "some_value");
    let var = Variable::for_test("foo", Some(""), None, Some(key));
    ctx.add_variable(var).unwrap();

    assert_eq!(ctx.read_variable("foo", "reader").unwrap(), "".to_string());

    ctx.realize_variables(&vec![], &env);
    assert_eq!(ctx.read_variable("foo", "reader").unwrap(), "some_value".to_string());
}

#[test]
fn test_realize_variables_cli_flag() {
    let mut ctx = ctx();
    let var = Variable::for_test("foo", Some(""), Some("--foo"), None);
    ctx.add_variable(var).unwrap();

    assert_eq!(ctx.read_variable("foo", "reader").unwrap(), "".to_string());

    ctx.realize_variables(
        &vec![
            "--bar".to_string(),
            "a".to_string(),
            "--foo".to_string(),
            "b".to_string(),
        ],
        &EnvVars::new(),
    );
    assert_eq!(ctx.read_variable("foo", "reader").unwrap(), "b".to_string());
}

#[test]
fn test_realize_variables_honors_order() {
    let mut ctx = ctx();
    let key = "ENV_VAR_FOR_test_realize_variables_honors_order";
    let mut env = EnvVars::new();
    env.push(key, "some_value");
    let var = Variable::for_test("foo", Some(""), Some("--foo"), Some(key));
    ctx.add_variable(var).unwrap();

    assert_eq!(ctx.read_variable("foo", "reader").unwrap(), "".to_string());

    ctx.realize_variables(
        &vec![
            "--bar".to_string(),
            "a".to_string(),
            "--foo".to_string(),
            "b".to_string(),
        ],
        &env,
    );
    assert_eq!(ctx.read_variable("foo", "reader").unwrap(), "b".to_string());
}

// - Tools

#[test]
fn test_add_tool_twice_fails() {
    let mut ctx = ctx();
    ctx.add_tool(Tool::for_test("foo")).unwrap();
    let err = ctx.add_tool(Tool::for_test("foo")).unwrap_err();
    assert_eq!(
        err.message(),
        "Tool(name = 'foo') already exists in this context".to_string()
    );
}

#[test]
fn test_with_tool_success() {
    let mut ctx = ctx();
    let _ = ctx.add_tool(Tool::for_test("foo"));
    let t = ctx.with_tool("foo").unwrap();
    assert_eq!(t.name(), "foo".to_string());
}

#[test]
fn test_with_tool_fails_if_missing_tool() {
    let ctx = ctx();
    let err = ctx.with_tool("foo").unwrap_err();
    assert_eq!(
        err.message(),
        "Tool(name = 'foo') does not exists in this context".to_string()
    );
}

// - Snapshot

#[test]
fn test_snapshot() {
    let mut ctx = ctx();

    let _ = ctx.add_variable(Variable::for_test("foo", None, None, None));
    let _ = ctx.add_variable(Variable::for_test("bar", None, None, None));

    ctx.add_tool(Tool::for_test("foo")).unwrap();
    ctx.add_tool(Tool::for_test("bar")).unwrap();

    let snapshot = ctx.snapshot();
    assert_eq!(snapshot.variables.len(), 2);
    assert_eq!(snapshot.tools.len(), 2);
}

#[test]
fn test_snapshot_is_stable_under_later_writes() {
    let mut ctx = ctx();
    let _ = ctx.add_variable(Variable::for_test("foo", Some("before"), None, None));

    let first = ctx.snapshot();
    let second = ctx.snapshot();
    assert_eq!(first.variables.len(), second.variables.len());
    assert_eq!(
        first.variables[0].value_ctx.as_ref().unwrap().value,
        second.variables[0].value_ctx.as_ref().unwrap().value
    );

    // Mutating the context does not reach back into the taken snapshot.
    ctx.write_variable("foo", "after", "writer").unwrap();
    assert_eq!(
        first.variables[0].value_ctx.as_ref().unwrap().value,
        "before".to_string()
    );
    assert_eq!(
        ctx.snapshot().variables[0].value_ctx.as_ref().unwrap().value,
        "after".to_string()
    );
}

#[test]
fn test_workflow_dir_drops_the_file_name() {
    let ctx = ParseContext::new("/path/to/foo.workflow");
    assert_eq!(ctx.workflow_dir(), "/path/to".to_string());
}

// - StringInterpolator

#[test]
fn test_interpolate_string_no_captures() {
    let ctx = ctx();
    assert_eq!(ctx.interpolate("", "").unwrap(), "".to_string());
    assert_eq!(ctx.interpolate("hello", "").unwrap(), "hello".to_string());
    assert_eq!(ctx.interpolate("\"hello\"", "").unwrap(), "\"hello\"".to_string());
}

#[test]
fn test_interpolate_string_for_variable() {
    let mut ctx = ctx();
    let _ = ctx.add_variable(Variable::for_test("foo", Some("foo-value"), None, None));
    let _ = ctx.add_variable(Variable::for_test("bar", Some("bar-value"), None, None));

    assert_eq!(
        ctx.interpolate("foo = {variable(foo)}", "").unwrap(),
        "foo = foo-value".to_string()
    );

    assert_eq!(
        ctx.interpolate("{variable(bar)}, {variable(foo)}", "").unwrap(),
        "bar-value, foo-value".to_string()
    );
}

#[test]
fn test_interpolate_string_fail_unknown_function() {
    let ctx = ctx();
    let err = ctx.interpolate("foo = {__not_a_function__(foo)}", "").unwrap_err();
    assert_eq!(
        err.message(),
        "Unknown function '__not_a_function__' in string interpolation".to_string()
    );
}

#[test]
fn test_interpolate_string_fail_restricted() {
    let mut ctx = ctx();
    let _ = ctx.add_variable(Variable::for_test_restricted("foo", "B"));
    let err = ctx.interpolate("foo = {variable(foo)}", "A").unwrap_err();
    assert_eq!(
        err.message(),
        "'A' not in allowed scopes to read var 'foo'".to_string()
    );
}

#[test]
fn test_interpolate_string_unknown_variable() {
    let ctx = ctx();
    let err = ctx.interpolate("foo = {variable(foo)}", "").unwrap_err();
    assert_eq!(
        err.message(),
        "Variable(name = 'foo') does not exists in this context".to_string()
    );
}

#[test]
fn test_interpolate_string_variable_not_set() {
    let mut ctx = ctx();
    let _ = ctx.add_variable(Variable::for_test("foo", None, None, None));
    let err = ctx.interpolate("foo = {variable(foo)}", "").unwrap_err();
    assert_eq!(err.message(), "No value set for 'foo'".to_string());
}
