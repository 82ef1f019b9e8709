use workflow_engine::arg_spec::{ArgError, ArgSpecEntry, IntArg, StringArg, StructValue};
use workflow_engine::next::next_impl;
use workflow_engine::script::ScriptValue;

#[test]
fn test_next_returns_stub_type() {
    let stub = next_impl(ScriptValue::Function(7), Vec::new()).unwrap();
    assert_eq!(stub.implementation, 7);
}

#[test]
fn next_test_fail_if_not_function() {
    let err = next_impl(ScriptValue::Str("_foo_impl".to_string()), Vec::new()).unwrap_err();
    assert_eq!(
        err.message(),
        "expected function type in next definition".to_string()
    );
}

#[test]
fn test_invoke_next_stub() {
    let stub = next_impl(ScriptValue::Function(7), Vec::new()).unwrap();
    let next = stub.invoke(&Vec::new()).unwrap();
    assert_eq!(next.implementation(), 7);
    assert!(next.args().is_empty());
}

#[test]
fn test_invoke_uses_default_when_missing() {
    let spec = vec![(
        "mode".to_string(),
        ArgSpecEntry::Str(StringArg { required: false, default: "fast".to_string() }),
    )];
    let stub = next_impl(ScriptValue::Function(1), spec).unwrap();
    let next = stub.invoke(&Vec::new()).unwrap();
    assert!(matches!(&next.args()[0].1, StructValue::StringValue(s) if s == "fast"));
}

#[test]
fn test_invoke_validates_string_type() {
    let spec = vec![(
        "mode".to_string(),
        ArgSpecEntry::Str(StringArg { required: false, default: "".to_string() }),
    )];
    let stub = next_impl(ScriptValue::Function(1), spec).unwrap();
    let supplied = vec![("mode".to_string(), ScriptValue::Int(3))];
    let err = stub.invoke(&supplied).unwrap_err();
    assert_eq!(err.message(), "Should be a string type".to_string());
}

#[test]
fn test_invoke_validates_int_type() {
    let spec = vec![(
        "count".to_string(),
        ArgSpecEntry::Int(IntArg { required: false, default: 0 }),
    )];
    let stub = next_impl(ScriptValue::Function(1), spec).unwrap();
    let supplied = vec![("count".to_string(), ScriptValue::Str("three".to_string()))];
    let err = stub.invoke(&supplied).unwrap_err();
    assert_eq!(err.message(), "Should be an int type".to_string());
}

#[test]
fn test_invoke_rejects_too_many_arguments() {
    let stub = next_impl(ScriptValue::Function(1), Vec::new()).unwrap();
    let supplied = vec![("extra".to_string(), ScriptValue::Int(1))];
    let err = stub.invoke(&supplied).unwrap_err();
    assert!(matches!(err, ArgError::TooManyArguments));
    assert_eq!(err.message(), "too many arguments".to_string());
}

#[test]
fn test_invoke_takes_supplied_values() {
    let spec = vec![
        (
            "mode".to_string(),
            ArgSpecEntry::Str(StringArg { required: false, default: "".to_string() }),
        ),
        (
            "count".to_string(),
            ArgSpecEntry::Int(IntArg { required: false, default: 0 }),
        ),
    ];
    let stub = next_impl(ScriptValue::Function(1), spec).unwrap();
    let supplied = vec![
        ("count".to_string(), ScriptValue::Int(3)),
        ("mode".to_string(), ScriptValue::Str("slow".to_string())),
    ];
    let next = stub.invoke(&supplied).unwrap();
    assert!(matches!(&next.args()[0].1, StructValue::StringValue(s) if s == "slow"));
    assert!(matches!(&next.args()[1].1, StructValue::IntValue(3)));
}
