use workflow_engine::variables::{
    LateBoundString, MapResolver, ValueFormatter, VariableResolver, VariableResolverError,
};

#[test]
fn test_resolve_from_value() {
    let r = MapResolver::new();
    let v = LateBoundString::with_value("foo".to_string());
    assert_eq!(v.get_value(&r).unwrap(), "foo".to_string());
}

#[test]
fn test_resolve_from_identifier() {
    let mut r = MapResolver::new();
    r.insert("123", "foo");
    let v = LateBoundString::with_identifier("123".to_string());
    assert_eq!(v.get_value(&r).unwrap(), "foo".to_string());
}

#[test]
fn test_resolve_from_value_formatter() {
    let r = MapResolver::new();
    let formatter =
        ValueFormatter::new("-{}-", vec![LateBoundString::with_value("foo".to_string())]);
    let v = LateBoundString::with_value_formatter(formatter);
    assert_eq!(v.get_value(&r).unwrap(), "-foo-".to_string());
}

#[test]
fn test_resolve_from_identifier_fail() {
    let r = MapResolver::new();
    let v = LateBoundString::with_identifier("123".to_string());
    let err = v.get_value(&r).unwrap_err();
    assert_eq!(err.message(), "Unknown variable with id '123'".to_string());
}

#[test]
fn test_resolver_error_no_value_message() {
    let err = VariableResolverError::NoValueSet("42".to_string());
    assert_eq!(err.message(), "Variable with id '42' has no value".to_string());
}

#[test]
fn test_constant_resolver_answers_everywhere() {
    let r = "abc".to_string();
    assert_eq!(r.resolve("anything").unwrap(), "abc".to_string());
}
