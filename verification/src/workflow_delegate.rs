use vstd::prelude::*;

use crate::assoc::{assoc_keys, assoc_lookup};
use crate::errors::{AccessError, AccessErrorView};
use crate::variable::{
    spec_realize_entry, strings_view, EnvVars, ValueContextView, ValueUpdatedByView, VariableEntry,
    VariableEntryView,
};
use crate::variable_store::{StoreView, VariableStore};
use crate::variables::{resolve_error_view, ResolveFailure, VariableResolver, VariableResolverError};

verus! {

/// The events the host evaluator reports while it parses a workflow
/// script; the engine's delegate reacts to each. The spec functions
/// expose the state the events act on: the variable registry, the
/// recorded workflow file, and the argument list and environment the
/// realize step will draw from.
pub trait ParseDelegate {
    /// The delegate's variable registry.
    spec fn spec_store(&self) -> StoreView;

    /// The workflow file recorded so far, if any.
    spec fn spec_workflow_file(&self) -> Option<Seq<char>>;

    /// The command line arguments variables will be realized from.
    spec fn spec_args(&self) -> Seq<Seq<char>>;

    /// The environment variables will be realized from.
    spec fn spec_env(&self) -> Seq<(Seq<char>, Seq<char>)>;

    /// Called when a `variable(...)` declaration is evaluated: the entry
    /// is registered under the identifier (last write wins), every other
    /// registration is untouched, and nothing else changes.
    fn on_variable(&mut self, identifier: &str, variable: VariableEntry)
        ensures
            assoc_lookup(final(self).spec_store(), identifier@) == Some(variable@),
            forall|k: Seq<char>|
                k != identifier@ ==> assoc_lookup(final(self).spec_store(), k) == assoc_lookup(
                    old(self).spec_store(),
                    k,
                ),
            assoc_keys(final(self).spec_store()) =~= (if assoc_lookup(
                old(self).spec_store(),
                identifier@,
            ) is Some {
                assoc_keys(old(self).spec_store())
            } else {
                assoc_keys(old(self).spec_store()).push(identifier@)
            }),
            final(self).spec_workflow_file() == old(self).spec_workflow_file(),
            final(self).spec_args() == old(self).spec_args(),
            final(self).spec_env() == old(self).spec_env(),
    ;

    /// Called once, before the script's top-level statements run: the
    /// workflow file is recorded and nothing else changes.
    fn will_parse_workflow(&mut self, workflow: &str)
        ensures
            final(self).spec_workflow_file() == Some(workflow@),
            final(self).spec_store() == old(self).spec_store(),
            final(self).spec_args() == old(self).spec_args(),
            final(self).spec_env() == old(self).spec_env(),
    ;

    /// Called once, after the script's top-level statements finish:
    /// every registered variable is realized, in registration order,
    /// against the delegate's arguments and environment — command line
    /// first, environment second, defaults untouched otherwise.
    fn did_parse_workflow(&mut self)
        ensures
            final(self).spec_store() =~= old(self).spec_store().map_values(
                |p: (Seq<char>, VariableEntryView)|
                    (p.0, spec_realize_entry(p.1, old(self).spec_args(), old(self).spec_env())),
            ),
            final(self).spec_workflow_file() == old(self).spec_workflow_file(),
            final(self).spec_args() == old(self).spec_args(),
            final(self).spec_env() == old(self).spec_env(),
    ;
}

/// The engine's own parse delegate: it registers each declared variable
/// and, when parsing completes, realizes every variable from the
/// command line and the environment it was constructed with.
pub struct WorkflowDelegate {
    pub workflow_file: Option<String>,
    pub variable_store: VariableStore,
    pub workflow_args: Vec<String>,
    pub environment: EnvVars,
}

impl WorkflowDelegate {
    /// A delegate with no workflow arguments and an empty environment.
    pub fn new() -> (r: WorkflowDelegate)
        ensures
            r.workflow_file is None,
            r.variable_store@.len() == 0,
            r.variable_store.wf(),
            r.workflow_args@.len() == 0,
            r.environment@.len() == 0,
    {
        WorkflowDelegate::with_args(Vec::new())
    }

    /// A delegate that will realize variables from `args`.
    pub fn with_args(args: Vec<String>) -> (r: WorkflowDelegate)
        ensures
            r.workflow_file is None,
            r.variable_store@.len() == 0,
            r.variable_store.wf(),
            r.workflow_args@ == args@,
            r.environment@.len() == 0,
    {
        let env = EnvVars::new();
        WorkflowDelegate {
            workflow_file: None,
            variable_store: VariableStore::new(),
            workflow_args: args,
            environment: env,
        }
    }

    /// A delegate that will realize variables from `args` and `env`.
    pub fn with_args_and_env(args: Vec<String>, env: EnvVars) -> (r: WorkflowDelegate)
        ensures
            r.workflow_file is None,
            r.variable_store@.len() == 0,
            r.variable_store.wf(),
            r.workflow_args@ == args@,
            r.environment == env,
    {
        WorkflowDelegate {
            workflow_file: None,
            variable_store: VariableStore::new(),
            workflow_args: args,
            environment: env,
        }
    }

    pub fn variable_store(&self) -> (r: &VariableStore)
        ensures
            r@ == self.variable_store@,
    {
        &self.variable_store
    }

    /// Records a value written back by an action's setter, through the
    /// scope-checked write path: the write succeeds exactly when the
    /// variable exists and its writers scope permits `writer`, and the
    /// new value carries `Action` provenance under that writer's name.
    pub fn update(&mut self, identifier: &str, value: &str, writer: &str) -> (r: Result<
        (),
        AccessError,
    >)
        ensures
            final(self).workflow_file == old(self).workflow_file,
            final(self).workflow_args@ == old(self).workflow_args@,
            final(self).environment == old(self).environment,
            old(self).variable_store.wf() ==> final(self).variable_store.wf(),
            assoc_keys(final(self).variable_store@) =~= assoc_keys(old(self).variable_store@),
            match assoc_lookup(old(self).variable_store@, identifier@) {
                None => r matches Err(e) && e@ == AccessErrorView::UnknownVariable(identifier@)
                    && final(self).variable_store@ =~= old(self).variable_store@,
                Some(en) => {
                    if !en.writers.permits(writer@) {
                        r matches Err(e) && e@ == (AccessErrorView::NotInWriteScope {
                            variable: identifier@,
                            writer: writer@,
                        }) && final(self).variable_store@ =~= old(self).variable_store@
                    } else {
                        r is Ok && assoc_lookup(final(self).variable_store@, identifier@) == Some(
                            VariableEntryView {
                                value_ctx: Some(
                                    ValueContextView {
                                        value: value@,
                                        updated_by: ValueUpdatedByView::Action(writer@),
                                    },
                                ),
                                ..en
                            },
                        ) && forall|k: Seq<char>|
                            k != identifier@ ==> assoc_lookup(final(self).variable_store@, k)
                                == assoc_lookup(old(self).variable_store@, k)
                    }
                },
            },
    {
        self.variable_store.write_value(identifier, value, writer)
    }
}

impl ParseDelegate for WorkflowDelegate {
    open spec fn spec_store(&self) -> StoreView {
        self.variable_store@
    }

    open spec fn spec_workflow_file(&self) -> Option<Seq<char>> {
        match self.workflow_file {
            Some(ref s) => Some(s@),
            None => None,
        }
    }

    open spec fn spec_args(&self) -> Seq<Seq<char>> {
        strings_view(self.workflow_args@)
    }

    open spec fn spec_env(&self) -> Seq<(Seq<char>, Seq<char>)> {
        self.environment@
    }

    fn on_variable(&mut self, identifier: &str, variable: VariableEntry) {
        self.variable_store.register_variable(identifier, variable);
    }

    fn will_parse_workflow(&mut self, workflow: &str) {
        self.workflow_file = Some(workflow.to_owned());
    }

    fn did_parse_workflow(&mut self) {
        self.variable_store.realize_variables(&self.workflow_args, &self.environment);
    }
}

impl VariableResolver for WorkflowDelegate {
    open spec fn spec_resolve(&self, identifier: Seq<char>) -> Option<Seq<char>> {
        self.variable_store.spec_resolve(identifier)
    }

    open spec fn spec_resolve_failure(&self, identifier: Seq<char>) -> ResolveFailure {
        self.variable_store.spec_resolve_failure(identifier)
    }

    fn resolve(&self, identifier: &str) -> (r: Result<String, VariableResolverError>)
        ensures
            match r {
                Ok(s) => self.spec_resolve(identifier@) == Some(s@),
                Err(e) => self.spec_resolve(identifier@) is None && e@ == resolve_error_view(
                    self.spec_resolve_failure(identifier@),
                    identifier@,
                ),
            },
    {
        self.variable_store.resolve(identifier)
    }
}

} // verus!
