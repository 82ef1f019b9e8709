use vstd::prelude::*;

use crate::assoc::{
    assoc_keys, assoc_lookup, lemma_assoc_lookup_after_push, lemma_assoc_lookup_after_update,
    lemma_assoc_lookup_none_no_key,
};
use crate::errors::{AccessError, AccessErrorView};
use crate::variables::{resolve_error_view, ResolveFailure, VariableResolver, VariableResolverError};
use crate::variable::{
    env_lookup, spec_find_cli_flag_value, spec_realize_entry, strings_view, EnvVars, ValueContextView,
    ValueUpdatedBy, ValueUpdatedByView, VariableEntry, VariableEntryView, VariableScopeView,
};

verus! {

/// View of the registry contents: (identifier, entry) pairs in
/// registration order.
pub type StoreView = Seq<(Seq<char>, VariableEntryView)>;

pub open spec fn store_view(entries: Seq<(String, VariableEntry)>) -> StoreView {
    entries.map_values(|p: (String, VariableEntry)| (p.0@, p.1@))
}

/// The live variable registry: owns every declared variable's entry,
/// keyed by its generated identifier, in registration order.
#[derive(Debug)]
pub struct VariableStore {
    pub entries: Vec<(String, VariableEntry)>,
}

impl View for VariableStore {
    type V = StoreView;

    open spec fn view(&self) -> StoreView {
        store_view(self.entries@)
    }
}

impl VariableStore {
    /// Identifiers are unique, so every lookup is unambiguous.
    pub open spec fn wf(&self) -> bool {
        forall|i: int, j: int|
            0 <= i < j < self@.len() ==> self@[i].0 != self@[j].0
    }

    pub fn new() -> (r: VariableStore)
        ensures
            r@ =~= Seq::<(Seq<char>, VariableEntryView)>::empty(),
            r.wf(),
    {
        let r = VariableStore { entries: Vec::new() };
        assert(r@ =~= Seq::<(Seq<char>, VariableEntryView)>::empty());
        r
    }

    /// Index of the entry registered under `identifier`, if any.
    fn index_of(&self, identifier: &str) -> (r: Option<usize>)
        ensures
            match r {
                Some(i) => i < self@.len() && self@[i as int].0 == identifier@ && (forall|j: int|
                    0 <= j < i ==> self@[j].0 != identifier@) && assoc_lookup(self@, identifier@)
                    == Some(self@[i as int].1),
                None => assoc_lookup(self@, identifier@) is None,
            },
    {
        let n = self.entries.len();
        let mut i: usize = 0;
        assert(self@.skip(0) =~= self@);
        #[verifier::loop_isolation(false)]
        while i < n
            invariant
                0 <= i <= n,
                n == self.entries@.len(),
                forall|j: int| 0 <= j < i ==> self@[j].0 != identifier@,
                assoc_lookup(self@, identifier@) == assoc_lookup(self@.skip(i as int), identifier@),
            decreases n - i,
        {
            let ghost tail = self@.skip(i as int);
            assert(tail[0] == self@[i as int]);
            if crate::text::str_eq(self.entries[i].0.as_str(), identifier) {
                return Some(i);
            }
            assert(tail.drop_first() =~= self@.skip(i as int + 1));
            i = i + 1;
        }
        assert(self@.skip(n as int) =~= Seq::<(Seq<char>, VariableEntryView)>::empty());
        None
    }

    /// Inserts or replaces the entry under `identifier`; the last write
    /// wins, and a replacement keeps the original registration position.
    pub fn register_variable(&mut self, identifier: &str, var: VariableEntry)
        ensures
            old(self).wf() ==> final(self).wf(),
            assoc_lookup(final(self)@, identifier@) == Some(var@),
            forall|k: Seq<char>|
                k != identifier@ ==> assoc_lookup(final(self)@, k) == assoc_lookup(old(self)@, k),
            assoc_keys(final(self)@) =~= (if assoc_lookup(old(self)@, identifier@) is Some {
                assoc_keys(old(self)@)
            } else {
                assoc_keys(old(self)@).push(identifier@)
            }),
    {
        match self.index_of(identifier) {
            Some(i) => {
                let ghost s = self@;
                proof {
                    lemma_assoc_lookup_after_update(s, i as int, var@);
                }
                self.entries.set(i, (identifier.to_owned(), var));
                assert(self@ =~= s.update(i as int, (s[i as int].0, var@)));
                assert(assoc_keys(self@) =~= assoc_keys(s));
            },
            None => {
                let ghost s = self@;
                proof {
                    lemma_assoc_lookup_none_no_key(s, identifier@);
                    lemma_assoc_lookup_after_push(s, identifier@, var@);
                }
                self.entries.push((identifier.to_owned(), var));
                assert(self@ =~= s.push((identifier@, var@)));
                assert(assoc_keys(self@) =~= assoc_keys(s).push(identifier@));
            },
        }
    }

    /// The current resolved value for `identifier`: none when the
    /// identifier is unknown or the variable has no value and no default.
    pub fn get_variable_value(&self, identifier: &str) -> (r: Option<String>)
        ensures
            match assoc_lookup(self@, identifier@) {
                None => r is None,
                Some(e) => match e.value_ctx {
                    Some(c) => r matches Some(s) && s@ == c.value,
                    None => r is None,
                },
            },
    {
        match self.index_of(identifier) {
            Some(i) => self.entries[i].1.value(),
            None => None,
        }
    }

    /// Unconditionally overwrites the value context under `identifier`;
    /// a no-op when the identifier is unknown.
    pub fn update_variable_value(&mut self, identifier: &str, value: &str, updated_by:
        ValueUpdatedBy)
        ensures
            old(self).wf() ==> final(self).wf(),
            assoc_keys(final(self)@) =~= assoc_keys(old(self)@),
            match assoc_lookup(old(self)@, identifier@) {
                None => final(self)@ =~= old(self)@,
                Some(e) => assoc_lookup(final(self)@, identifier@) == Some(
                    VariableEntryView {
                        value_ctx: Some(
                            ValueContextView { value: value@, updated_by: updated_by@ },
                        ),
                        ..e
                    },
                ) && forall|k: Seq<char>|
                    k != identifier@ ==> assoc_lookup(final(self)@, k) == assoc_lookup(
                        old(self)@,
                        k,
                    ),
            },
    {
        match self.index_of(identifier) {
            Some(i) => {
                let ghost s = self@;
                let mut e = self.entries[i].1.duplicate();
                e.update_value(value, updated_by);
                let id = self.entries[i].0.clone();
                proof {
                    lemma_assoc_lookup_after_update(s, i as int, e@);
                }
                self.entries.set(i, (id, e));
                assert(self@ =~= s.update(i as int, (s[i as int].0, e@)));
                assert(assoc_keys(self@) =~= assoc_keys(s));
            },
            None => {
                assert(self@ =~= old(self)@);
            },
        }
    }

    /// Borrowed access to the entry under `identifier`, if any.
    pub fn with_variable(&self, identifier: &str) -> (r: Option<&VariableEntry>)
        ensures
            match assoc_lookup(self@, identifier@) {
                Some(e) => r matches Some(re) && re@ == e,
                None => r is None,
            },
    {
        match self.index_of(identifier) {
            Some(i) => Some(&self.entries[i].1),
            None => None,
        }
    }

    /// Scope-checked read: succeeds exactly when the variable exists, its
    /// readers scope permits `reader`, and it has a value.
    pub fn read_value(&self, identifier: &str, reader: &str) -> (r: Result<String, AccessError>)
        ensures
            match assoc_lookup(self@, identifier@) {
                None => r matches Err(e) && e@ == AccessErrorView::UnknownVariable(identifier@),
                Some(en) => {
                    if !en.readers.permits(reader@) {
                        r matches Err(e) && e@ == (AccessErrorView::NotInReadScope {
                            variable: identifier@,
                            reader: reader@,
                        })
                    } else {
                        match en.value_ctx {
                            Some(c) => r matches Ok(s) && s@ == c.value,
                            None => r matches Err(e) && e@ == AccessErrorView::NoValueSet(
                                identifier@,
                            ),
                        }
                    }
                },
            },
    {
        match self.index_of(identifier) {
            None => Err(AccessError::UnknownVariable(identifier.to_owned())),
            Some(i) => {
                let entry = &self.entries[i].1;
                if !entry.readers.permits(reader) {
                    Err(
                        AccessError::NotInReadScope {
                            variable: identifier.to_owned(),
                            reader: reader.to_owned(),
                        },
                    )
                } else {
                    match entry.value() {
                        Some(v) => Ok(v),
                        None => Err(AccessError::NoValueSet(identifier.to_owned())),
                    }
                }
            },
        }
    }

    /// Scope-checked write: succeeds exactly when the variable exists and
    /// its writers scope permits `writer`; the new value is attributed to
    /// the writing action.
    pub fn write_value(&mut self, identifier: &str, value: &str, writer: &str) -> (r: Result<
        (),
        AccessError,
    >)
        ensures
            old(self).wf() ==> final(self).wf(),
            assoc_keys(final(self)@) =~= assoc_keys(old(self)@),
            match assoc_lookup(old(self)@, identifier@) {
                None => r matches Err(e) && e@ == AccessErrorView::UnknownVariable(identifier@)
                    && final(self)@ =~= old(self)@,
                Some(en) => {
                    if !en.writers.permits(writer@) {
                        r matches Err(e) && e@ == (AccessErrorView::NotInWriteScope {
                            variable: identifier@,
                            writer: writer@,
                        }) && final(self)@ =~= old(self)@
                    } else {
                        r is Ok && assoc_lookup(final(self)@, identifier@) == Some(
                            VariableEntryView {
                                value_ctx: Some(
                                    ValueContextView {
                                        value: value@,
                                        updated_by: ValueUpdatedByView::Action(writer@),
                                    },
                                ),
                                ..en
                            },
                        ) && forall|k: Seq<char>|
                            k != identifier@ ==> assoc_lookup(final(self)@, k) == assoc_lookup(
                                old(self)@,
                                k,
                            )
                    }
                },
            },
    {
        match self.index_of(identifier) {
            None => Err(AccessError::UnknownVariable(identifier.to_owned())),
            Some(i) => {
                if !self.entries[i].1.writers.permits(writer) {
                    Err(
                        AccessError::NotInWriteScope {
                            variable: identifier.to_owned(),
                            writer: writer.to_owned(),
                        },
                    )
                } else {
                    let ghost s = self@;
                    let mut e = self.entries[i].1.duplicate();
                    e.update_value(value, ValueUpdatedBy::Action(writer.to_owned()));
                    let id = self.entries[i].0.clone();
                    proof {
                        lemma_assoc_lookup_after_update(s, i as int, e@);
                    }
                    self.entries.set(i, (id, e));
                    assert(self@ =~= s.update(i as int, (s[i as int].0, e@)));
                    assert(assoc_keys(self@) =~= assoc_keys(s));
                    Ok(())
                }
            },
        }
    }

    /// Realizes every registered variable, in registration order: the
    /// command line is tried first, the environment second, and otherwise
    /// the entry keeps its default (or stays unset).
    pub fn realize_variables(&mut self, workflow_args: &Vec<String>, env: &EnvVars)
        ensures
            final(self)@ =~= old(self)@.map_values(
                |p: (Seq<char>, VariableEntryView)|
                    (p.0, spec_realize_entry(p.1, strings_view(workflow_args@), env@)),
            ),
    {
        let ghost orig = self@;
        let n = self.entries.len();
        let mut i: usize = 0;
        #[verifier::loop_isolation(false)]
        while i < n
            invariant
                0 <= i <= n,
                n == self.entries@.len(),
                self@.len() == orig.len(),
                forall|j: int|
                    i <= j < n ==> self@[j] == orig[j],
                forall|j: int|
                    0 <= j < i ==> self@[j] == (
                    orig[j].0,
                    spec_realize_entry(orig[j].1, strings_view(workflow_args@), env@),
                ),
            decreases n - i,
        {
            let ghost pre = self@;
            assert(pre[i as int] == (self.entries@[i as int].0@, self.entries@[i as int].1@));
            let id = self.entries[i].0.clone();
            let mut e = self.entries[i].1.duplicate();
            e.realize(workflow_args, env);
            self.entries.set(i, (id, e));
            assert(self@ =~= pre.update(i as int, (id@, e@)));
            i = i + 1;
        }
        assert(self@ =~= orig.map_values(
            |p: (Seq<char>, VariableEntryView)|
                (p.0, spec_realize_entry(p.1, strings_view(workflow_args@), env@)),
        ));
    }
}

impl VariableResolver for VariableStore {
    open spec fn spec_resolve(&self, identifier: Seq<char>) -> Option<Seq<char>> {
        match assoc_lookup(self@, identifier) {
            Some(e) => match e.value_ctx {
                Some(c) => Some(c.value),
                None => None,
            },
            None => None,
        }
    }

    /// An unregistered identifier is unknown; a registered one without
    /// a value has none.
    open spec fn spec_resolve_failure(&self, identifier: Seq<char>) -> ResolveFailure {
        if assoc_lookup(self@, identifier) is None {
            ResolveFailure::Unknown
        } else {
            ResolveFailure::NoValue
        }
    }

    fn resolve(&self, identifier: &str) -> (r: Result<String, VariableResolverError>)
        ensures
            match r {
                Ok(s) => self.spec_resolve(identifier@) == Some(s@),
                Err(e) => self.spec_resolve(identifier@) is None && e@ == resolve_error_view(
                    self.spec_resolve_failure(identifier@),
                    identifier@,
                ),
            },
    {
        match self.with_variable(identifier) {
            None => Err(VariableResolverError::UnknownVariable(identifier.to_owned())),
            Some(entry) => match entry.value() {
                Some(v) => Ok(v),
                None => Err(VariableResolverError::NoValueSet(identifier.to_owned())),
            },
        }
    }
}

/// Resolution precedence law: with a command-line flag, an environment
/// name, and a default all present, realization takes the flag's value
/// first, the environment's second, and leaves the default in place only
/// when neither source supplies a value.
pub proof fn lemma_resolution_precedence(
    e: VariableEntryView,
    args: Seq<Seq<char>>,
    env: Seq<(Seq<char>, Seq<char>)>,
    f: Seq<char>,
    k: Seq<char>,
)
    requires
        e.cli_flag == Some(f),
        e.env == Some(k),
    ensures
        match spec_find_cli_flag_value(f, args) {
            Some(v) => spec_realize_entry(e, args, env) == (VariableEntryView {
                value_ctx: Some(
                    ValueContextView { value: v, updated_by: ValueUpdatedByView::CLIFlag(f) },
                ),
                ..e
            }),
            None => match env_lookup(env, k) {
                Some(v) => spec_realize_entry(e, args, env) == (VariableEntryView {
                    value_ctx: Some(
                        ValueContextView {
                            value: v,
                            updated_by: ValueUpdatedByView::EnvironmentVariable(k),
                        },
                    ),
                    ..e
                }),
                None => spec_realize_entry(e, args, env) == e,
            },
        },
{
}

} // verus!
