use vstd::prelude::*;

use crate::variable_store::VariableStore;

verus! {

/// The state one workflow execution carries: the script file it came
/// from and the live variable registry.
#[derive(Debug)]
pub struct WorkflowContext {
    pub workflow_file: String,
    pub variable_store: VariableStore,
}

impl WorkflowContext {
    pub fn new(workflow_file: &str) -> (r: WorkflowContext)
        ensures
            r.workflow_file@ == workflow_file@,
            r.variable_store@.len() == 0,
            r.variable_store.wf(),
    {
        WorkflowContext {
            workflow_file: workflow_file.to_owned(),
            variable_store: VariableStore::new(),
        }
    }
}

} // verus!
