use workflow_engine::action::action_impl;
use workflow_engine::next::next_impl;
use workflow_engine::node::{node_impl, sequence_impl};
use workflow_engine::script::ScriptValue;
use workflow_engine::tool::tool_impl;

fn simple_action() -> ScriptValue {
    let tool = tool_impl(ScriptValue::Str("".to_string()));
    ScriptValue::Action(action_impl(ScriptValue::Tool(tool), Vec::new(), Vec::new()).unwrap())
}

#[test]
fn test_can_parse_simple_node() {
    assert!(node_impl("", simple_action(), None).is_ok());
}

#[test]
fn test_require_an_action_type() {
    let err = node_impl("", ScriptValue::Int(1), None).unwrap_err();
    assert_eq!(
        err.message(),
        "An action must be passed as the action in a node".to_string()
    );
}

#[test]
fn test_require_a_next_type() {
    let err = node_impl("", simple_action(), Some(ScriptValue::Str("".to_string())))
        .unwrap_err();
    assert_eq!(
        err.message(),
        "A Next must be passed as the next value in a node".to_string()
    );
}

#[test]
fn node_test_set_name() {
    let node = node_impl("foo", simple_action(), None).unwrap();
    assert_eq!(node.name(), "foo");
}

#[test]
fn test_node_accepts_a_bound_next() {
    let stub = next_impl(ScriptValue::Function(1), Vec::new()).unwrap();
    let next = stub.invoke(&Vec::new()).unwrap();
    let node = node_impl("foo", simple_action(), Some(ScriptValue::Next(next))).unwrap();
    assert!(node.next.is_some());
}

#[test]
fn test_can_parse_simple_sequence() {
    let node = sequence_impl("", vec![simple_action(), simple_action()], None).unwrap();
    assert_eq!(node.actions.len(), 2);
}

#[test]
fn test_sequence_requires_an_action() {
    let err = sequence_impl("", Vec::new(), None).unwrap_err();
    assert_eq!(err.message(), "a node must contain at least one action".to_string());
}

#[test]
fn test_sequence_fails_if_any_non_action() {
    let err = sequence_impl(
        "",
        vec![simple_action(), ScriptValue::Int(1), simple_action()],
        None,
    )
    .unwrap_err();
    assert_eq!(
        err.message(),
        "All actions in a sequence must be action types".to_string()
    );
}
