use vstd::prelude::*;

use crate::action::{Action, ActionCtx};
use crate::errors::{ExecError, ExecErrorView};
use crate::next::Next;
use crate::script::{BuildError, ScriptValue};

verus! {

/// A named unit of execution: one or more actions run in order, plus an
/// optional bound continuation consulted afterwards.
#[derive(Debug)]
pub struct Node {
    pub name: String,
    pub actions: Vec<Action>,
    pub next: Option<Next>,
}

/// Builds a node from a `node(name = ..., action = ..., next = ...)`
/// declaration: the action must be an action and the next, when given, a
/// bound continuation.
pub fn node_impl(name: &str, action: ScriptValue, next: Option<ScriptValue>) -> (r: Result<
    Node,
    BuildError,
>)
    ensures
        match action {
            ScriptValue::Action(a) => {
                match next {
                    Some(nv) => match nv {
                        ScriptValue::Next(nx) => r matches Ok(n) && n.name@ == name@ && n.actions@
                            =~= seq![a] && n.next == Some(nx),
                        _ => r matches Err(BuildError::NotANext),
                    },
                    None => r matches Ok(n) && n.name@ == name@ && n.actions@ =~= seq![a] && n.next
                        is None,
                }
            },
            _ => r matches Err(BuildError::NotAnActionInNode),
        },
{
    let a = match action {
        ScriptValue::Action(a) => a,
        _ => {
            return Err(BuildError::NotAnActionInNode);
        },
    };
    let nx = match next {
        Some(nv) => match nv {
            ScriptValue::Next(nx) => Some(nx),
            _ => {
                return Err(BuildError::NotANext);
            },
        },
        None => None,
    };
    let mut actions: Vec<Action> = Vec::new();
    actions.push(a);
    Ok(Node { name: name.to_owned(), actions, next: nx })
}

/// Builds a node from a `sequence(name = ..., actions = ..., next =
/// ...)` declaration: at least one action is required, and every
/// element must be an action.
pub fn sequence_impl(name: &str, actions: Vec<ScriptValue>, next: Option<ScriptValue>) -> (r:
    Result<Node, BuildError>)
    ensures
        match r {
            Ok(n) => n.name@ == name@ && actions@.len() >= 1 && n.actions@.len()
                == actions@.len() && (forall|i: int|
                0 <= i < actions@.len() ==> actions@[i] == ScriptValue::Action(n.actions@[i]))
                && (match next {
                Some(nv) => nv matches ScriptValue::Next(nx) && n.next == Some(nx),
                None => n.next is None,
            }),
            Err(e) => (e is NoActions && actions@.len() == 0) || (e is NotAllActions
                && exists|i: int| 0 <= i < actions@.len() && !(actions@[i] is Action)) || (
            e is NotANext && (match next {
                Some(nv) => !(nv is Next),
                None => false,
            })),
        },
{
    if actions.len() == 0 {
        return Err(BuildError::NoActions);
    }
    let ghost orig = actions@;
    let mut actions = actions;
    let mut acts: Vec<Action> = Vec::new();
    #[verifier::loop_isolation(false)]
    while actions.len() > 0
        invariant
            actions@ =~= orig.skip(acts@.len() as int),
            acts@.len() <= orig.len(),
            forall|i: int|
                0 <= i < acts@.len() ==> orig[i] == ScriptValue::Action(acts@[i]),
        decreases actions@.len(),
    {
        let ghost k = acts@.len() as int;
        assert(actions@[0] == orig[k]);
        let v = actions.remove(0);
        match v {
            ScriptValue::Action(a) => {
                acts.push(a);
            },
            _ => {
                return Err(BuildError::NotAllActions);
            },
        }
        assert(actions@ =~= orig.skip(k + 1));
    }
    let nx = match next {
        Some(nv) => match nv {
            ScriptValue::Next(nx) => Some(nx),
            _ => {
                return Err(BuildError::NotANext);
            },
        },
        None => None,
    };
    Ok(Node { name: name.to_owned(), actions: acts, next: nx })
}

impl Node {
    pub fn name(&self) -> (r: &str)
        ensures
            r@ == self.name@,
    {
        self.name.as_str()
    }
}

/// What the host reports for one attempted action run: the captured
/// context when the subprocess ran to completion, or the failure text
/// when it could not be spawned or its streams could not be read.
#[derive(Debug)]
pub enum ActionOutcome {
    Completed(ActionCtx),
    Failed(String),
}

/// Where a node run stands after one action's outcome is known.
#[derive(Debug)]
pub enum NodeProgress {
    Continue(usize),
    Done,
    Aborted(ExecError),
}

/// Decides how a node run proceeds after the action at `idx` finished:
/// a host failure or a nonzero exit aborts the node, so no later action
/// runs; otherwise the next action follows, until none is left.
pub fn node_step(node: &Node, idx: usize, outcome: &ActionOutcome) -> (r: NodeProgress)
    requires
        idx < node.actions@.len(),
    ensures
        match outcome {
            ActionOutcome::Failed(m) => r matches NodeProgress::Aborted(e) && e@
                == ExecErrorView::ActionFailed(m@),
            ActionOutcome::Completed(ctx) => {
                if ctx.exit_code != 0 {
                    r matches NodeProgress::Aborted(e) && e@ == ExecErrorView::NonZeroExit(
                        ctx.exit_code as int,
                    )
                } else if idx + 1 < node.actions@.len() {
                    r == NodeProgress::Continue((idx + 1) as usize)
                } else {
                    r is Done
                }
            },
        },
{
    match outcome {
        ActionOutcome::Failed(m) => NodeProgress::Aborted(ExecError::ActionFailed(m.clone())),
        ActionOutcome::Completed(ctx) => {
            if ctx.exit_code != 0 {
                NodeProgress::Aborted(ExecError::NonZeroExit(ctx.exit_code))
            } else {
                let n = node.actions.len();
                if idx < n - 1 {
                    NodeProgress::Continue(idx + 1)
                } else {
                    NodeProgress::Done
                }
            }
        },
    }
}

/// Decides what a continuation's return value means: a string names the
/// node to continue to, none ends the walk, anything else is an error.
pub fn next_node_from_return(ret: &ScriptValue) -> (r: Result<Option<String>, ExecError>)
    ensures
        match ret {
            ScriptValue::Str(s) => r matches Ok(Some(v)) && v@ == s@,
            ScriptValue::NoneVal => r matches Ok(o) && o is None,
            _ => r matches Err(e) && e@ == ExecErrorView::InvalidReturnType,
        },
{
    match ret {
        ScriptValue::Str(s) => Ok(Some(s.clone())),
        ScriptValue::NoneVal => Ok(None),
        _ => Err(ExecError::InvalidReturnType),
    }
}

} // verus!
