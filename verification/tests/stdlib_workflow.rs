use workflow_engine::action::action_impl;
use workflow_engine::node::node_impl;
use workflow_engine::script::ScriptValue;
use workflow_engine::tool::tool_impl;
use workflow_engine::workflow::workflow_impl;

fn named_node(name: &str) -> ScriptValue {
    let tool = tool_impl(ScriptValue::Str("".to_string()));
    let action = action_impl(ScriptValue::Tool(tool), Vec::new(), Vec::new()).unwrap();
    ScriptValue::Node(node_impl(name, ScriptValue::Action(action), None).unwrap())
}

#[test]
fn test_required_values() {
    assert!(workflow_impl("", Vec::new()).is_ok());
}

#[test]
fn test_parse_graph_many_values() {
    let workflow = workflow_impl(
        "a",
        vec![named_node("a"), named_node("b"), named_node("c")],
    )
    .unwrap();
    assert_eq!(workflow.graph.len(), 3);
    assert_eq!(workflow.entrypoint(), "a");
}

#[test]
fn test_graph_must_contain_unique_names() {
    let err = workflow_impl("a", vec![named_node("a"), named_node("a")]).unwrap_err();
    assert_eq!(err.message(), "nodes must have unique names".to_string());
}

#[test]
fn test_graph_must_contain_nodes_only() {
    let err = workflow_impl(
        "a",
        vec![named_node("a"), ScriptValue::Int(1), named_node("c")],
    )
    .unwrap_err();
    assert_eq!(err.message(), "graph can only contain node values".to_string());
}

#[test]
fn test_graph_can_take_single_node() {
    assert!(workflow_impl("a", vec![named_node("a")]).is_ok());
}

#[test]
fn test_entry_point_single_node() {
    // With exactly one node the entrypoint is ignored.
    let workflow = workflow_impl("", vec![named_node("a")]).unwrap();
    let first_node = workflow.first_node().unwrap();
    assert_eq!(first_node.name(), "a");
}

#[test]
fn test_entry_point_multi_node() {
    let workflow = workflow_impl("b", vec![named_node("a"), named_node("b")]).unwrap();
    let first_node = workflow.first_node().unwrap();
    assert_eq!(first_node.name(), "b");
}

#[test]
fn test_empty_graph_cannot_run() {
    let workflow = workflow_impl("a", Vec::new()).unwrap();
    let err = workflow.first_node().unwrap_err();
    assert_eq!(err.message(), "Graph contains no nodes".to_string());
}

#[test]
fn test_unknown_entrypoint_fails() {
    let workflow = workflow_impl("missing", vec![named_node("a"), named_node("b")]).unwrap();
    let err = workflow.first_node().unwrap_err();
    assert_eq!(err.message(), "No node with name: 'missing'".to_string());
}
