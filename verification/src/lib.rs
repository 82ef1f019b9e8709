pub mod assoc;
pub mod action;
pub mod arg_spec;
pub mod errors;
pub mod legacy;
pub mod next;
pub mod node;
pub mod parse_context;
pub mod paths;
pub mod script;
pub mod setter;
pub mod text;
pub mod tool;
pub mod type_builder;
pub mod var;
pub mod variable;
pub mod variable_store;
pub mod variables;
pub mod workflow_context;
pub mod workflow_delegate;
pub mod workflow;

pub use action::{
    action_impl, exit_code_from_status, setter_return_value, Action, ActionCtx, OutputCollector,
};
pub use arg_spec::{ArgError, ArgSpecEntry, IntArg, StringArg, StructValue};
pub use errors::{AccessError, ExecError, StdlibError};
pub use legacy::{FrozenTool, FrozenVariable, Variable};
pub use next::{next_impl, Next, NextStub};
pub use node::{
    next_node_from_return, node_impl, node_step, sequence_impl, ActionOutcome, Node, NodeProgress,
};
pub use script::{display_string, BuildError, ScriptValue};
pub use setter::{setter_impl, Setter};
pub use tool::{builtin_tool_impl, tool_impl, Tool, ToolError};
pub use type_builder::{Buildable, FieldState};
pub use var::{Var, VarBuilder, VarScope, WorkflowContent};
pub use workflow::{workflow_impl, Workflow};
pub use workflow_context::WorkflowContext;
pub use workflow_delegate::{ParseDelegate, WorkflowDelegate};
pub use parse_context::{
    InterpolateError, NoStringInterp, ParseContext, ParseContextError, ParseContextSnapshot,
    StringInterpolator, VarAccessError,
};
pub use variable::{
    EnvVars, RealizeError, ValueContext, ValueUpdatedBy, VariableEntry, VariableRef, VariableScope,
};
pub use variable_store::VariableStore;
pub use variables::{
    FormatError, LateBoundString, MapResolver, OneOf, ValueFormatter, VariableResolver,
    VariableResolverError,
};
