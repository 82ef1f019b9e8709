use workflow_engine::variable::{EnvVars, ValueUpdatedBy, VariableEntry};
use workflow_engine::variables::VariableResolver;
use workflow_engine::workflow_delegate::{ParseDelegate, WorkflowDelegate};

#[test]
fn test_will_parse_workflow() {
    let mut delegate = WorkflowDelegate::new();
    delegate.will_parse_workflow("foo");
    assert_eq!(delegate.workflow_file, Some("foo".to_string()));
}

#[test]
fn test_on_variable_registers() {
    let mut delegate = WorkflowDelegate::new();
    delegate.on_variable("id-1", VariableEntry::for_test(Some("v"), None, None));
    assert_eq!(
        delegate.variable_store().get_variable_value("id-1"),
        Some("v".to_string())
    );
}

#[test]
fn test_did_parse_workflow_realizes() {
    let mut env = EnvVars::new();
    env.push("DELEGATE_ENV", "from-env");
    let mut delegate = WorkflowDelegate::with_args_and_env(
        vec!["--flag".to_string(), "from-cli".to_string()],
        env,
    );
    delegate.on_variable("a", VariableEntry::for_test(Some("d"), Some("--flag"), None));
    delegate.on_variable("b", VariableEntry::for_test(Some("d"), None, Some("DELEGATE_ENV")));
    delegate.did_parse_workflow();
    assert_eq!(
        delegate.variable_store().get_variable_value("a"),
        Some("from-cli".to_string())
    );
    assert_eq!(
        delegate.variable_store().get_variable_value("b"),
        Some("from-env".to_string())
    );
}

#[test]
fn test_delegate_resolves_and_updates() {
    let mut delegate = WorkflowDelegate::new();
    delegate.on_variable("id-1", VariableEntry::for_test(None, None, None));
    assert!(delegate.resolve("id-1").is_err());
    delegate.update("id-1", "set-by-action", "worker").unwrap();
    assert_eq!(delegate.resolve("id-1").unwrap(), "set-by-action".to_string());
}

#[test]
fn test_update_records_action_provenance() {
    let mut delegate = WorkflowDelegate::new();
    delegate.on_variable("id-1", VariableEntry::for_test(None, None, None));
    delegate.update("id-1", "v", "worker").unwrap();
    let ctx = delegate
        .variable_store()
        .with_variable("id-1")
        .unwrap()
        .value_ctx()
        .unwrap();
    assert!(matches!(ctx.updated_by, ValueUpdatedBy::Action(ref w) if w == "worker"));
}

#[test]
fn test_update_respects_write_scope() {
    let mut delegate = WorkflowDelegate::new();
    let entry = VariableEntry::new(None, None, None, None, Some(vec!["allowed".to_string()]))
        .unwrap();
    delegate.on_variable("id-1", entry);

    let err = delegate.update("id-1", "v", "other").unwrap_err();
    assert_eq!(
        err.message(),
        "'other' not in allowed scopes to write var 'id-1'".to_string()
    );
    assert!(delegate.resolve("id-1").is_err());

    delegate.update("id-1", "v", "allowed").unwrap();
    assert_eq!(delegate.resolve("id-1").unwrap(), "v".to_string());
}

#[test]
fn test_update_unknown_identifier_is_an_error() {
    let mut delegate = WorkflowDelegate::new();
    let err = delegate.update("missing", "v", "worker").unwrap_err();
    assert_eq!(err.message(), "Unknown variable with id 'missing'".to_string());
}
