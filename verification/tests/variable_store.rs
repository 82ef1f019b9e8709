use workflow_engine::variable::{EnvVars, ValueUpdatedBy, VariableEntry};
use workflow_engine::variable_store::VariableStore;

#[test]
fn test_register_variable() {
    let mut store = VariableStore::new();
    let var = VariableEntry::for_test(Some("foo"), None, None);
    store.register_variable("123", var);

    let var = store.get_variable_value("123");
    assert_eq!(var, Some("foo".to_string()));
}

#[test]
fn test_update_variable() {
    let mut store = VariableStore::new();
    let var = VariableEntry::for_test(None, None, None);
    store.register_variable("123", var);
    store.update_variable_value("123", "new value", ValueUpdatedBy::ForTest);
    let var = store.get_variable_value("123");
    assert_eq!(var, Some("new value".to_string()));
}

#[test]
fn test_relaize_variables() {
    let key = "ENV_VAR_FOR_test_realize_variables_env";
    let mut env = EnvVars::new();
    env.push(key, "some_value");

    let mut store = VariableStore::new();
    store.register_variable("1", VariableEntry::for_test(None, Some("--foo"), None));
    store.register_variable("2", VariableEntry::for_test(None, None, Some(key)));
    store.register_variable("3", VariableEntry::for_test(None, Some("--bar"), Some(key)));

    store.realize_variables(
        &vec![
            "--foo".to_string(),
            "foo_value".to_string(),
            "--bar".to_string(),
            "bar_value".to_string(),
        ],
        &env,
    );

    assert_eq!(store.get_variable_value("1"), Some("foo_value".to_string()));
    assert_eq!(store.get_variable_value("2"), Some("some_value".to_string()));
    assert_eq!(store.get_variable_value("3"), Some("bar_value".to_string()));
}

#[test]
fn test_update_unknown_identifier_is_a_no_op() {
    let mut store = VariableStore::new();
    store.update_variable_value("missing", "value", ValueUpdatedBy::ForTest);
    assert_eq!(store.get_variable_value("missing"), None);
}

#[test]
fn test_read_value_scopes() {
    let mut store = VariableStore::new();
    let mut readers = Vec::new();
    readers.push("allowed".to_string());
    let entry = VariableEntry::new(Some("v"), None, None, Some(readers), None).unwrap();
    store.register_variable("id", entry);

    assert_eq!(store.read_value("id", "allowed").unwrap(), "v".to_string());
    let err = store.read_value("id", "other").unwrap_err();
    assert_eq!(
        err.message(),
        "'other' not in allowed scopes to read var 'id'".to_string()
    );
}

#[test]
fn test_write_value_scopes() {
    let mut store = VariableStore::new();
    let mut writers = Vec::new();
    writers.push("allowed".to_string());
    let entry = VariableEntry::new(None, None, None, None, Some(writers)).unwrap();
    store.register_variable("id", entry);

    let err = store.write_value("id", "value", "other").unwrap_err();
    assert_eq!(
        err.message(),
        "'other' not in allowed scopes to write var 'id'".to_string()
    );
    assert_eq!(store.get_variable_value("id"), None);

    store.write_value("id", "value", "allowed").unwrap();
    assert_eq!(store.get_variable_value("id"), Some("value".to_string()));
}

#[test]
fn test_read_value_distinct_errors() {
    let mut store = VariableStore::new();
    store.register_variable("id", VariableEntry::for_test(None, None, None));

    let err = store.read_value("id", "anyone").unwrap_err();
    assert_eq!(err.message(), "No value set for 'id'".to_string());

    let err = store.read_value("missing", "anyone").unwrap_err();
    assert_eq!(err.message(), "Unknown variable with id 'missing'".to_string());
}
