use workflow_engine::action::{action_impl, exit_code_from_status, setter_return_value, ActionCtx};
use workflow_engine::node::{
    next_node_from_return, node_impl, node_step, ActionOutcome, NodeProgress,
};
use workflow_engine::script::{display_string, to_late_bound, ScriptValue};
use workflow_engine::tool::tool_impl;
use workflow_engine::variable::{EnvVars, VariableEntry};
use workflow_engine::variables::MapResolver;
use workflow_engine::workflow::workflow_impl;

fn named_node(name: &str, actions: usize) -> ScriptValue {
    let mut acts = Vec::new();
    for _ in 0..actions {
        let tool = tool_impl(ScriptValue::Str("".to_string()));
        acts.push(ScriptValue::Action(
            action_impl(ScriptValue::Tool(tool), Vec::new(), Vec::new()).unwrap(),
        ));
    }
    ScriptValue::Node(
        workflow_engine::node::sequence_impl(name, acts, None).unwrap(),
    )
}

// Resolution precedence scenarios.

#[test]
fn test_cli_flag_resolves_when_env_unset() {
    let mut var = VariableEntry::for_test(Some("d"), Some("--foo"), Some("FOO_ENV"));
    var.realize(
        &vec![
            "--bar".to_string(),
            "x".to_string(),
            "--foo".to_string(),
            "y".to_string(),
        ],
        &EnvVars::new(),
    );
    assert_eq!(var.value().unwrap(), "y".to_string());
}

#[test]
fn test_env_resolves_when_args_empty() {
    let mut env = EnvVars::new();
    env.push("FOO_ENV", "e");
    let mut var = VariableEntry::for_test(Some("d"), Some("--foo"), Some("FOO_ENV"));
    var.realize(&vec![], &env);
    assert_eq!(var.value().unwrap(), "e".to_string());
}

// Node sequencing: the first nonzero exit aborts the node.

#[test]
fn test_nonzero_exit_aborts_node() {
    let node = match named_node("n", 2) {
        ScriptValue::Node(n) => n,
        _ => unreachable!(),
    };
    let ctx = ActionCtx::new("".to_string(), "".to_string(), 3);
    let progress = node_step(&node, 0, &ActionOutcome::Completed(ctx));
    assert!(matches!(progress, NodeProgress::Aborted(_)));
}

#[test]
fn test_zero_exit_continues_then_finishes() {
    let node = match named_node("n", 2) {
        ScriptValue::Node(n) => n,
        _ => unreachable!(),
    };
    let ok = ActionCtx::new("out".to_string(), "".to_string(), 0);
    assert!(matches!(
        node_step(&node, 0, &ActionOutcome::Completed(ok.duplicate())),
        NodeProgress::Continue(1)
    ));
    assert!(matches!(
        node_step(&node, 1, &ActionOutcome::Completed(ok)),
        NodeProgress::Done
    ));
}

#[test]
fn test_spawn_failure_aborts_node() {
    let node = match named_node("n", 1) {
        ScriptValue::Node(n) => n,
        _ => unreachable!(),
    };
    let progress = node_step(&node, 0, &ActionOutcome::Failed("boom".to_string()));
    match progress {
        NodeProgress::Aborted(e) => assert_eq!(e.message(), "boom".to_string()),
        _ => panic!("expected the node to abort"),
    }
}

// Graph walk: a's Next names b; b has no next, so the walk ends.

#[test]
fn test_walk_a_then_b_then_stop() {
    let workflow = workflow_impl("a", vec![named_node("a", 1), named_node("b", 1)]).unwrap();
    let first = workflow.first_node().unwrap();
    assert_eq!(first.name(), "a");

    // Node a's continuation returns "b".
    let next = next_node_from_return(&ScriptValue::Str("b".to_string())).unwrap();
    let second = workflow
        .walk_next(next.as_deref())
        .unwrap()
        .expect("the walk continues to b");
    assert_eq!(second.name(), "b");

    // Node b has no continuation, so the walk terminates.
    assert!(second.next.is_none());
    assert!(workflow.walk_next(None).unwrap().is_none());
}

#[test]
fn test_walk_to_unknown_node_fails() {
    let workflow = workflow_impl("a", vec![named_node("a", 1), named_node("b", 1)]).unwrap();
    let err = workflow.walk_next(Some("missing")).unwrap_err();
    assert_eq!(err.message(), "No node with name: 'missing'".to_string());
}

// Return-value decisions.

#[test]
fn test_next_return_values() {
    assert_eq!(
        next_node_from_return(&ScriptValue::Str("b".to_string())).unwrap(),
        Some("b".to_string())
    );
    assert_eq!(next_node_from_return(&ScriptValue::NoneVal).unwrap(), None);
    let err = next_node_from_return(&ScriptValue::Int(1)).unwrap_err();
    assert_eq!(err.message(), "setter must return string or None".to_string());
}

#[test]
fn test_setter_return_values() {
    assert_eq!(
        setter_return_value(&ScriptValue::Str("v".to_string())).unwrap(),
        Some("v".to_string())
    );
    assert_eq!(setter_return_value(&ScriptValue::NoneVal).unwrap(), None);
    assert!(setter_return_value(&ScriptValue::Int(2)).is_err());
}

// Exit code resolution.

#[test]
fn test_exit_code_resolution() {
    assert_eq!(exit_code_from_status(Some(0), None), 0);
    assert_eq!(exit_code_from_status(Some(2), Some(9)), 2);
    assert_eq!(exit_code_from_status(None, Some(9)), 9);
    assert_eq!(exit_code_from_status(None, None), -1);
}

// Value rendering.

#[test]
fn test_display_renders_plain_values() {
    assert_eq!(display_string(&ScriptValue::Str("x".to_string())), "x".to_string());
    assert_eq!(display_string(&ScriptValue::Int(120)), "120".to_string());
    assert_eq!(display_string(&ScriptValue::Int(-42)), "-42".to_string());
    assert_eq!(display_string(&ScriptValue::Int(0)), "0".to_string());
    assert_eq!(display_string(&ScriptValue::NoneVal), "None".to_string());
}

#[test]
fn test_late_bound_conversion_renders_now() {
    let lb = to_late_bound(ScriptValue::Int(7));
    assert_eq!(lb.get_value(&MapResolver::new()).unwrap(), "7".to_string());
}

#[test]
fn test_workflow_context_starts_empty() {
    let ctx = workflow_engine::workflow_context::WorkflowContext::new("/w/flow.workflow");
    assert_eq!(ctx.workflow_file, "/w/flow.workflow".to_string());
    assert_eq!(ctx.variable_store.get_variable_value("any"), None);
}
