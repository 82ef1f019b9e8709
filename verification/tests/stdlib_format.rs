use workflow_engine::script::{to_late_bound, ScriptValue};
use workflow_engine::variable::VariableRef;
use workflow_engine::variables::{FormatError, LateBoundString, MapResolver, ValueFormatter};

fn no_resolve() -> MapResolver {
    MapResolver::new()
}

#[test]
fn format_test_can_parse_empty_string() {
    let formatter = ValueFormatter::new("", Vec::new());
    assert_eq!(formatter.fmt(&no_resolve()).unwrap(), "".to_string());
}

#[test]
fn format_test_can_parse_no_args_string() {
    let formatter = ValueFormatter::new("hello, world", Vec::new());
    assert_eq!(formatter.fmt(&no_resolve()).unwrap(), "hello, world".to_string());
}

#[test]
fn format_test_can_parse_n_args_string() {
    let _one = ValueFormatter::new("a", vec![to_late_bound(ScriptValue::Int(1))]);
    let _many = ValueFormatter::new(
        "a",
        vec![
            to_late_bound(ScriptValue::Int(1)),
            to_late_bound(ScriptValue::Str("x".to_string())),
            to_late_bound(ScriptValue::NoneVal),
        ],
    );
}

#[test]
fn format_test_simple_format() {
    let formatter = ValueFormatter::new("a", Vec::new());
    assert_eq!(formatter.fmt(&no_resolve()).unwrap(), "a".to_string());
}

#[test]
fn format_test_complex_format() {
    let formatter = ValueFormatter::new(
        "{}, {}, {}",
        vec![
            to_late_bound(ScriptValue::Str("z".to_string())),
            to_late_bound(ScriptValue::Int(1)),
            to_late_bound(ScriptValue::NoneVal),
        ],
    );
    assert_eq!(formatter.fmt(&no_resolve()).unwrap(), "z, 1, None".to_string());
}

#[test]
fn format_test_complex_recurse() {
    let a = ValueFormatter::new("{}", vec![LateBoundString::with_value("a".to_string())]);
    let b = ValueFormatter::new("{}", vec![LateBoundString::with_value_formatter(a)]);
    assert_eq!(b.fmt(&no_resolve()).unwrap(), "a".to_string());
}

#[test]
fn test_format_with_variable() {
    let var_ref = VariableRef::new();
    let mut resolver = MapResolver::new();
    resolver.insert(var_ref.identifier(), "default");

    let formatter = ValueFormatter::new(
        "{}",
        vec![LateBoundString::with_identifier(var_ref.identifier().to_string())],
    );
    assert_eq!(formatter.fmt(&resolver).unwrap(), "default".to_string());
}

#[test]
fn test_format_two_placeholders() {
    let formatter = ValueFormatter::new(
        "{}, {}",
        vec![
            LateBoundString::with_value("a".to_string()),
            LateBoundString::with_value("b".to_string()),
        ],
    );
    assert_eq!(formatter.fmt(&no_resolve()).unwrap(), "a, b".to_string());
}

#[test]
fn test_format_more_args_than_placeholders() {
    let formatter = ValueFormatter::new(
        "{}",
        vec![
            LateBoundString::with_value("a".to_string()),
            LateBoundString::with_value("b".to_string()),
        ],
    );
    let err = formatter.fmt(&no_resolve()).unwrap_err();
    assert!(matches!(err, FormatError::MoreArgsThanPlaceholders));
    assert_eq!(err.message(), "more args than placeholders".to_string());
}

#[test]
fn test_format_fewer_args_leaves_placeholders() {
    let formatter = ValueFormatter::new(
        "{} and {}",
        vec![LateBoundString::with_value("a".to_string())],
    );
    assert_eq!(formatter.fmt(&no_resolve()).unwrap(), "a and {}".to_string());
}

#[test]
fn test_format_unknown_variable_fails() {
    let formatter = ValueFormatter::new(
        "{}",
        vec![LateBoundString::with_identifier("123".to_string())],
    );
    let err = formatter.fmt(&no_resolve()).unwrap_err();
    assert!(matches!(err, FormatError::Resolver(_)));
    assert_eq!(err.message(), "Unknown variable with id '123'".to_string());
}

#[test]
fn test_format_variable_without_value_fails_distinctly() {
    let mut store = workflow_engine::variable_store::VariableStore::new();
    store.register_variable("id-1", workflow_engine::variable::VariableEntry::empty());
    let formatter = ValueFormatter::new(
        "{}",
        vec![LateBoundString::with_identifier("id-1".to_string())],
    );
    let err = formatter.fmt(&store).unwrap_err();
    assert_eq!(err.message(), "Variable with id 'id-1' has no value".to_string());
}
