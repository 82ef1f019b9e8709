use workflow_engine::action::{action_impl, OutputCollector};
use workflow_engine::script::ScriptValue;
use workflow_engine::tool::{builtin_tool_impl, tool_impl};
use workflow_engine::variable::VariableRef;
use workflow_engine::variables::{LateBoundString, ValueFormatter};

#[test]
fn test_output_collector() {
    let mut collector = OutputCollector::new(true);
    let res = collector.collect(&[104, 101, 108, 108, 111], b"world");
    assert!(res.is_ok());
    assert_eq!(collector.stdout().unwrap(), "hello".to_string());
    assert_eq!(collector.stderr().unwrap(), "world".to_string());
}

#[test]
fn test_output_collector_no_collection() {
    let mut collector = OutputCollector::new(false);
    let res = collector.collect(&[104, 101, 108, 108, 111], b"world");
    assert!(res.is_ok());
    assert_eq!(collector.stdout().unwrap(), "".to_string());
    assert_eq!(collector.stderr().unwrap(), "".to_string());
}

#[test]
fn test_output_collector_rejects_invalid_utf8() {
    let mut collector = OutputCollector::new(true);
    collector.collect(&[0xff, 0xfe], b"").unwrap();
    let err = collector.stdout().unwrap_err();
    assert_eq!(err.message(), "captured output is not valid UTF-8".to_string());
}

#[test]
fn test_can_parse_simple_action() {
    let tool = tool_impl(ScriptValue::Str("foo".to_string()));
    assert!(action_impl(ScriptValue::Tool(tool), Vec::new(), Vec::new()).is_ok());
}

#[test]
fn test_require_a_tool() {
    let err = action_impl(ScriptValue::Str("tool".to_string()), Vec::new(), Vec::new())
        .unwrap_err();
    assert_eq!(
        err.message(),
        "A tool must be passed as the tool in an action".to_string()
    );
}

#[test]
fn test_get_complex_args() {
    let v = VariableRef::new();
    let formatter = ValueFormatter::new(
        "--{}",
        vec![LateBoundString::with_identifier(v.identifier().to_string())],
    );
    let tool = tool_impl(ScriptValue::Str("foo".to_string()));
    let action = action_impl(
        ScriptValue::Tool(tool),
        vec![
            ScriptValue::VariableRef(v),
            ScriptValue::Formatter(formatter),
            ScriptValue::Str("some string".to_string()),
        ],
        Vec::new(),
    )
    .unwrap();

    let result = action.arg_list(&"abc".to_string()).unwrap();
    let expected = vec![
        "abc".to_string(),
        "--abc".to_string(),
        "some string".to_string(),
    ];
    assert_eq!(&result, &expected);
}

#[test]
fn test_get_tool_path() {
    let tool = builtin_tool_impl("ls");
    let action = action_impl(ScriptValue::Tool(tool), vec![ScriptValue::Str(".".to_string())],
        Vec::new())
    .unwrap();
    assert_eq!(
        action.tool.path(&"".to_string(), "").unwrap(),
        "ls".to_string()
    );
    let args = action.arg_list(&"".to_string()).unwrap();
    assert_eq!(args, vec![".".to_string()]);
}
