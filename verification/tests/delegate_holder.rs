use std::any::Any;

use workflow_engine::parse_context::ParseContext;
use workflow_engine::workflow_delegate::WorkflowDelegate;

#[test]
fn test_downcast_delegate_ref_success() {
    // The host hands the evaluator an opaque slot; the typed delegate
    // must be recoverable from it.
    let delegate = WorkflowDelegate::new();
    let holder: Box<dyn Any> = Box::new(delegate);
    assert!(holder.downcast_ref::<WorkflowDelegate>().is_some());
}

#[test]
fn test_downcast_delegate_ref_fail() {
    let delegate = WorkflowDelegate::new();
    let holder: Box<dyn Any> = Box::new(delegate);
    assert!(holder.downcast_ref::<ParseContext>().is_none());
}
