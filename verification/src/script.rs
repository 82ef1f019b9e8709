use vstd::prelude::*;

use crate::action::Action;
use crate::next::{Next, NextStub};
use crate::node::Node;
use crate::setter::Setter;
use crate::text::spec_int_string;
use crate::tool::Tool;
use crate::variable::VariableRef;
use crate::variables::{LateBoundString, OneOf, ValueFormatter};

verus! {

/// The closed set of value shapes the host evaluator can hand the
/// engine: the engine's own object kinds, plus plain values. A host-side
/// function value is carried as an opaque handle that the host maps back
/// to the callable.
#[derive(Debug)]
pub enum ScriptValue {
    Tool(Tool),
    Action(Action),
    Node(Node),
    VariableRef(VariableRef),
    Formatter(ValueFormatter),
    Setter(Setter),
    NextStub(NextStub),
    Next(Next),
    Function(u64),
    Str(String),
    Int(i64),
    NoneVal,
    Other,
}

/// How a script value renders as text, mirroring the display form each
/// object kind carries.
pub open spec fn spec_display(v: ScriptValue) -> Seq<char> {
    match v {
        ScriptValue::Tool(t) => "tool"@,
        ScriptValue::Action(a) => "action"@,
        ScriptValue::Node(n) => "node"@,
        ScriptValue::VariableRef(r) => r.identifier@,
        ScriptValue::Formatter(f) => f.fmt_str@,
        ScriptValue::Setter(s) => "setter"@,
        ScriptValue::NextStub(s) => "next_stub"@,
        ScriptValue::Next(n) => "next"@,
        ScriptValue::Function(h) => "function"@,
        ScriptValue::Str(s) => s@,
        ScriptValue::Int(i) => spec_int_string(i as int),
        ScriptValue::NoneVal => "None"@,
        ScriptValue::Other => "other"@,
    }
}

/// Renders a script value as text.
pub fn display_string(v: &ScriptValue) -> (r: String)
    ensures
        r@ == spec_display(*v),
{
    match v {
        ScriptValue::Tool(t) => "tool".to_owned(),
        ScriptValue::Action(a) => "action".to_owned(),
        ScriptValue::Node(n) => "node".to_owned(),
        ScriptValue::VariableRef(vr) => vr.identifier.clone(),
        ScriptValue::Formatter(f) => f.fmt_str.clone(),
        ScriptValue::Setter(s) => "setter".to_owned(),
        ScriptValue::NextStub(s) => "next_stub".to_owned(),
        ScriptValue::Next(n) => "next".to_owned(),
        ScriptValue::Function(h) => "function".to_owned(),
        ScriptValue::Str(s) => s.clone(),
        ScriptValue::Int(i) => crate::text::int_to_string(*i),
        ScriptValue::NoneVal => "None".to_owned(),
        ScriptValue::Other => "other".to_owned(),
    }
}

/// Converts a script value into a late-bound argument. Verus compares
/// the rendered cases by their text, so the contract speaks of views.
pub fn to_late_bound(v: ScriptValue) -> (r: LateBoundString)
    ensures
        match v {
            ScriptValue::VariableRef(vr) => r matches LateBoundString(OneOf::Identifier(id))
                && id@ == vr.identifier@,
            ScriptValue::Formatter(f) => r == LateBoundString(OneOf::ValueFormatter(f)),
            _ => r matches LateBoundString(OneOf::Value(s)) && s@ == spec_display(v),
        },
{
    match v {
        ScriptValue::VariableRef(vr) => LateBoundString(OneOf::Identifier(vr.identifier)),
        ScriptValue::Formatter(f) => LateBoundString(OneOf::ValueFormatter(f)),
        other => LateBoundString(OneOf::Value(display_string(&other))),
    }
}

/// Errors raised when a script-level declaration is given a value of the
/// wrong kind, or a graph breaks its shape rules.
#[derive(Debug)]
pub enum BuildError {
    NotATool,
    NotAnActionInNode,
    NotANext,
    NoActions,
    NotAllActions,
    NotANodeInGraph,
    DuplicateNodeName,
    SetterNotAVariable,
    SetterNotAFunction,
    NextNotAFunction,
}

impl BuildError {
    /// Renders the error as the user-facing message text.
    pub fn message(&self) -> (r: String)
        ensures
            match self {
                BuildError::NotATool => r@ == "A tool must be passed as the tool in an action"@,
                BuildError::NotAnActionInNode => r@
                    == "An action must be passed as the action in a node"@,
                BuildError::NotANext => r@ == "A Next must be passed as the next value in a node"@,
                BuildError::NoActions => r@ == "a node must contain at least one action"@,
                BuildError::NotAllActions => r@
                    == "All actions in a sequence must be action types"@,
                BuildError::NotANodeInGraph => r@ == "graph can only contain node values"@,
                BuildError::DuplicateNodeName => r@ == "nodes must have unique names"@,
                BuildError::SetterNotAVariable => r@
                    == "expected variable type in setter definition"@,
                BuildError::SetterNotAFunction => r@
                    == "expected function type in setter definition"@,
                BuildError::NextNotAFunction => r@ == "expected function type in next definition"@,
            },
    {
        match self {
            BuildError::NotATool => "A tool must be passed as the tool in an action".to_owned(),
            BuildError::NotAnActionInNode => {
                "An action must be passed as the action in a node".to_owned()
            },
            BuildError::NotANext => "A Next must be passed as the next value in a node".to_owned(),
            BuildError::NoActions => "a node must contain at least one action".to_owned(),
            BuildError::NotAllActions => {
                "All actions in a sequence must be action types".to_owned()
            },
            BuildError::NotANodeInGraph => "graph can only contain node values".to_owned(),
            BuildError::DuplicateNodeName => "nodes must have unique names".to_owned(),
            BuildError::SetterNotAVariable => {
                "expected variable type in setter definition".to_owned()
            },
            BuildError::SetterNotAFunction => {
                "expected function type in setter definition".to_owned()
            },
            BuildError::NextNotAFunction => {
                "expected function type in next definition".to_owned()
            },
        }
    }
}

} // verus!
