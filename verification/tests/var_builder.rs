use workflow_engine::type_builder::{Buildable, FieldState};
use workflow_engine::var::Var;

#[test]
fn var_test_set_name() {
    let mut builder = Var::builder();
    builder.set_name("test");
    assert_eq!(builder.name, FieldState::Value("test"));
}

#[test]
fn test_name_cannot_be_empty() {
    let mut v = Var::builder();
    v.set_name("");
    assert!(v.build().is_err());
}

#[test]
fn test_missing_name_fails() {
    let v = Var::builder();
    assert_eq!(v.build().unwrap_err(), "Var::name: No Value Set".to_string());
}

#[test]
fn test_invalid_cli_flag() {
    let mut builder = Var::builder();
    builder.set_cli_flag("bar");
    assert!(match builder.cli_flag {
        FieldState::Error(_) => true,
        _ => false,
    });
}

#[test]
fn test_set_cli_flag() {
    let mut builder = Var::builder();
    builder.set_cli_flag("--bar");
    assert_eq!(builder.cli_flag, FieldState::Value(Some("--bar")));
}

#[test]
fn test_set_default() {
    let mut builder = Var::builder();
    builder.set_default("foo");
    assert_eq!(builder.default, FieldState::Value(Some("foo")));
}

#[test]
fn test_empty_env_fails() {
    let mut builder = Var::builder();
    builder.set_env("");
    assert!(match builder.env {
        FieldState::Error(_) => true,
        _ => false,
    });
}

#[test]
fn test_set_env() {
    let mut builder = Var::builder();
    builder.set_env("FOO");
    assert_eq!(builder.env, FieldState::Value(Some("FOO")));
}

#[test]
fn test_build_full_var() {
    let mut builder = Var::builder();
    builder.set_name("my_var");
    builder.set_default("v");
    builder.set_env("FOO");
    builder.set_cli_flag("--foo");
    let var = builder.build().unwrap();
    assert_eq!(var.name, "my_var");
    assert_eq!(var.default, Some("v"));
    assert_eq!(var.env, Some("FOO"));
    assert_eq!(var.cli_flag, Some("--foo"));
}

#[test]
fn test_setting_field_twice_is_an_error() {
    let mut builder = Var::builder();
    builder.set_default("a");
    builder.set_default("b");
    assert!(match builder.default {
        FieldState::Error(_) => true,
        _ => false,
    });
}
