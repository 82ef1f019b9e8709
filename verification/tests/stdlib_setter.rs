use workflow_engine::script::ScriptValue;
use workflow_engine::setter::setter_impl;
use workflow_engine::variable::VariableRef;

#[test]
fn test_can_parse_simple_setter() {
    let v = VariableRef::new();
    let setter = setter_impl(ScriptValue::Function(1), ScriptValue::VariableRef(v.duplicate()))
        .unwrap();
    assert_eq!(setter.variable_identifier(), v.identifier());
}

#[test]
fn test_fail_if_not_variable() {
    let err = setter_impl(ScriptValue::Function(1), ScriptValue::Str("v".to_string()))
        .unwrap_err();
    assert_eq!(
        err.message(),
        "expected variable type in setter definition".to_string()
    );
}

#[test]
fn setter_test_fail_if_not_function() {
    let v = VariableRef::new();
    let err = setter_impl(
        ScriptValue::Str("_foo_impl".to_string()),
        ScriptValue::VariableRef(v),
    )
    .unwrap_err();
    assert_eq!(
        err.message(),
        "expected function type in setter definition".to_string()
    );
}
