use workflow_engine::script::ScriptValue;
use workflow_engine::variable::{EnvVars, VariableEntry, VariableRef};

#[test]
fn test_can_parse_simple_variable() {
    assert!(VariableEntry::new(None, None, None, None, None).is_ok());
    let var_ref = VariableRef::new();
    assert!(!var_ref.identifier().is_empty());
}

#[test]
fn test_can_parse_with_all_values() {
    let readers = vec!["foo".to_string(), "bar".to_string()];
    let writers = vec!["foo".to_string(), "bar".to_string()];
    let entry = VariableEntry::new(
        Some("value"),
        Some("VAR_TWO"),
        Some("--foo"),
        Some(readers),
        Some(writers),
    );
    assert!(entry.is_ok());
}

#[test]
fn test_variable_ref_type() {
    let value = ScriptValue::VariableRef(VariableRef::new());
    assert!(matches!(value, ScriptValue::VariableRef(_)));
}

#[test]
fn test_unique_identifiers() {
    let a = VariableRef::new();
    let b = VariableRef::new();
    assert_ne!(a.identifier(), b.identifier());
}

#[test]
fn test_identifier_length() {
    assert_eq!(VariableRef::new().identifier().len(), 36);
}

// --- env

#[test]
fn validate_env_success() {
    assert_eq!(
        VariableEntry::validate_env(Some("foo")).unwrap().unwrap(),
        "foo".to_string()
    );
    assert_eq!(
        VariableEntry::validate_env(Some("1")).unwrap().unwrap(),
        "1".to_string()
    );
    assert_eq!(VariableEntry::validate_env(None).unwrap(), None);
}

#[test]
fn validate_env_fail_empty() {
    assert!(VariableEntry::validate_env(Some("")).is_err());
}

#[test]
fn validate_env_fail_spaces() {
    let err = VariableEntry::validate_env(Some("a b")).unwrap_err();
    assert_eq!(
        err.message(),
        "Invalid attribute 'env', cannot contain spaces got 'a b'".to_string()
    );
}

// --- cli_flag

#[test]
fn validate_cli_flag_success() {
    assert_eq!(
        VariableEntry::validate_cli_flag(Some("--foo")).unwrap().unwrap(),
        "--foo".to_string()
    );
    assert_eq!(
        VariableEntry::validate_cli_flag(Some("-v")).unwrap().unwrap(),
        "-v".to_string()
    );
    assert_eq!(VariableEntry::validate_cli_flag(None).unwrap(), None);
}

#[test]
fn validate_cli_flag_fail_empty() {
    assert!(VariableEntry::validate_cli_flag(Some("")).is_err());
}

#[test]
fn validate_cli_flag_fail_missing_dashes() {
    let err = VariableEntry::validate_cli_flag(Some("foo")).unwrap_err();
    assert_eq!(
        err.message(),
        "Invalid attribute 'cli_flag', long flags must take the form --value got 'foo'".to_string()
    );
}

#[test]
fn validate_cli_flag_fail_two_dashes() {
    let err = VariableEntry::validate_cli_flag(Some("--")).unwrap_err();
    assert_eq!(
        err.message(),
        "Invalid attribute 'cli_flag', short flags must take the form -v got '--'".to_string()
    );
}

#[test]
fn validate_scope_fail_empty_entry() {
    let scopes = vec!["ok".to_string(), "".to_string()];
    let err = VariableEntry::validate_scope(Some(scopes)).unwrap_err();
    assert_eq!(
        err.message(),
        "Invalid attribute 'scope', scopes cannot contain empty strings got ''".to_string()
    );
}

// --- realization

#[test]
fn test_try_update_value_from_cli_flag_short_success() {
    let mut var = VariableEntry::for_test(Some("default"), Some("-f"), None);
    assert_eq!(var.value().unwrap(), "default".to_string());
    var.try_update_value_from_cli_flag(&vec![
        "--bar".to_string(),
        "a".to_string(),
        "-f".to_string(),
        "foo".to_string(),
    ])
    .unwrap();
    assert_eq!(var.value().unwrap(), "foo".to_string());
}

#[test]
fn test_try_update_value_from_cli_flag_long_success() {
    let mut var = VariableEntry::for_test(Some("default"), Some("--foo"), None);
    assert_eq!(var.value().unwrap(), "default".to_string());
    var.try_update_value_from_cli_flag(&vec![
        "--bar".to_string(),
        "a".to_string(),
        "--foo".to_string(),
        "foo".to_string(),
    ])
    .unwrap();
    assert_eq!(var.value().unwrap(), "foo".to_string());
}

#[test]
fn test_try_update_value_from_cli_flag_fail_not_set() {
    let mut var = VariableEntry::empty();
    assert!(var.try_update_value_from_cli_flag(&vec![]).is_err());
}

#[test]
fn test_try_update_value_from_cli_flag_fail_not_in_args() {
    let mut var = VariableEntry::for_test(Some("default"), Some("--foo"), None);
    assert!(var.try_update_value_from_cli_flag(&vec![]).is_err());
    assert_eq!(var.value().unwrap(), "default".to_string());
}

#[test]
fn test_flag_as_last_element_has_no_value() {
    let mut var = VariableEntry::for_test(Some("default"), Some("--foo"), None);
    assert!(var
        .try_update_value_from_cli_flag(&vec!["--foo".to_string()])
        .is_err());
    assert_eq!(var.value().unwrap(), "default".to_string());
}

#[test]
fn test_try_update_value_from_env_success() {
    let mut env = EnvVars::new();
    env.push("SOME_KEY", "some_value");
    let mut var = VariableEntry::for_test(Some("default"), None, Some("SOME_KEY"));
    assert_eq!(var.value().unwrap(), "default".to_string());
    var.try_update_value_from_env(&env).unwrap();
    assert_eq!(var.value().unwrap(), "some_value".to_string());
}

// --- precedence scenarios

#[test]
fn test_realize_cli_wins_over_env_and_default() {
    // The variable has all three sources; the command line wins.
    let mut env = EnvVars::new();
    env.push("FOO_ENV", "e");
    let mut var = VariableEntry::for_test(Some("d"), Some("--foo"), Some("FOO_ENV"));
    var.realize(
        &vec![
            "--bar".to_string(),
            "x".to_string(),
            "--foo".to_string(),
            "y".to_string(),
        ],
        &env,
    );
    assert_eq!(var.value().unwrap(), "y".to_string());
}

#[test]
fn test_realize_env_wins_over_default() {
    let mut env = EnvVars::new();
    env.push("FOO_ENV", "e");
    let mut var = VariableEntry::for_test(Some("d"), Some("--foo"), Some("FOO_ENV"));
    var.realize(&vec![], &env);
    assert_eq!(var.value().unwrap(), "e".to_string());
}

#[test]
fn test_realize_falls_back_to_default() {
    let env = EnvVars::new();
    let mut var = VariableEntry::for_test(Some("d"), Some("--foo"), Some("FOO_ENV"));
    var.realize(&vec![], &env);
    assert_eq!(var.value().unwrap(), "d".to_string());
}

// --- value

#[test]
fn empty_value_returns_default() {
    let var = VariableEntry::for_test(Some("default"), None, None);
    assert_eq!(var.value().unwrap(), "default".to_string());
}

#[test]
fn empty_value_returns_none_if_no_default() {
    let var = VariableEntry::empty();
    assert_eq!(var.value(), None);
}
