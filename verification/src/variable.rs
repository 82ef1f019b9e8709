use vstd::prelude::*;

use crate::errors::{StdlibError, StdlibErrorView};
use crate::text::{str_contains_char, str_eq};

verus! {

/// View of a `Vec<String>` as a sequence of character sequences.
pub open spec fn strings_view(v: Seq<String>) -> Seq<Seq<char>> {
    v.map_values(|s: String| s@)
}

/// Shorthand for the view of an `InvalidAttribute` error.
pub open spec fn invalid_attr_view(
    attr: Seq<char>,
    reason: Seq<char>,
    value: Seq<char>,
) -> StdlibErrorView {
    StdlibErrorView::InvalidAttribute { attr, value, reason }
}

/// Records how a variable's current value came to be set.
#[derive(Debug)]
pub enum ValueUpdatedBy {
    CLIFlag(String),
    EnvironmentVariable(String),
    Action(String),
    DefaultValue,
    ForTest,
}

pub enum ValueUpdatedByView {
    CLIFlag(Seq<char>),
    EnvironmentVariable(Seq<char>),
    Action(Seq<char>),
    DefaultValue,
    ForTest,
}

impl View for ValueUpdatedBy {
    type V = ValueUpdatedByView;

    open spec fn view(&self) -> ValueUpdatedByView {
        match self {
            ValueUpdatedBy::CLIFlag(s) => ValueUpdatedByView::CLIFlag(s@),
            ValueUpdatedBy::EnvironmentVariable(s) => ValueUpdatedByView::EnvironmentVariable(s@),
            ValueUpdatedBy::Action(s) => ValueUpdatedByView::Action(s@),
            ValueUpdatedBy::DefaultValue => ValueUpdatedByView::DefaultValue,
            ValueUpdatedBy::ForTest => ValueUpdatedByView::ForTest,
        }
    }
}

impl ValueUpdatedBy {
    /// An owned copy with the same view.
    pub fn duplicate(&self) -> (r: Self)
        ensures
            r@ == self@,
    {
        match self {
            ValueUpdatedBy::CLIFlag(s) => ValueUpdatedBy::CLIFlag(s.clone()),
            ValueUpdatedBy::EnvironmentVariable(s) => ValueUpdatedBy::EnvironmentVariable(
                s.clone(),
            ),
            ValueUpdatedBy::Action(s) => ValueUpdatedBy::Action(s.clone()),
            ValueUpdatedBy::DefaultValue => ValueUpdatedBy::DefaultValue,
            ValueUpdatedBy::ForTest => ValueUpdatedBy::ForTest,
        }
    }

    /// User-facing description of the provenance.
    pub fn message(&self) -> (r: String)
        ensures
            match self@ {
                ValueUpdatedByView::CLIFlag(v) => r@ == "Updated by command line flag '"@ + v
                    + "'"@,
                ValueUpdatedByView::EnvironmentVariable(v) => r@
                    == "Updated by environment variable '"@ + v + "'"@,
                ValueUpdatedByView::Action(v) => r@ == "Updated by action with name '"@ + v + "'"@,
                ValueUpdatedByView::DefaultValue => r@ == "Updated by default value"@,
                ValueUpdatedByView::ForTest => r@ == "for testing"@,
            },
    {
        match self {
            ValueUpdatedBy::CLIFlag(v) => {
                let mut m = "Updated by command line flag '".to_owned();
                m.append(v.as_str());
                m.append("'");
                m
            },
            ValueUpdatedBy::EnvironmentVariable(v) => {
                let mut m = "Updated by environment variable '".to_owned();
                m.append(v.as_str());
                m.append("'");
                m
            },
            ValueUpdatedBy::Action(v) => {
                let mut m = "Updated by action with name '".to_owned();
                m.append(v.as_str());
                m.append("'");
                m
            },
            ValueUpdatedBy::DefaultValue => "Updated by default value".to_owned(),
            ValueUpdatedBy::ForTest => "for testing".to_owned(),
        }
    }
}

/// The scope of a variable: readable/writable by anyone, or only by the
/// listed accessor names.
#[derive(Debug)]
pub enum VariableScope {
    Global,
    Restricted(Vec<String>),
}

pub enum VariableScopeView {
    Global,
    Restricted(Seq<Seq<char>>),
}

impl View for VariableScope {
    type V = VariableScopeView;

    open spec fn view(&self) -> VariableScopeView {
        match self {
            VariableScope::Global => VariableScopeView::Global,
            VariableScope::Restricted(names) => VariableScopeView::Restricted(strings_view(names@)),
        }
    }
}

impl VariableScopeView {
    /// Whether an accessor called `name` is allowed by this scope.
    pub open spec fn permits(self, name: Seq<char>) -> bool {
        match self {
            VariableScopeView::Global => true,
            VariableScopeView::Restricted(names) => names.contains(name),
        }
    }
}

/// Scope law: a global scope admits every accessor name, and a
/// restricted scope admits exactly the listed names. Together with the
/// contracts of the scope-checked read and write paths, this pins down
/// when an access succeeds.
pub proof fn lemma_scope_permits(scope: VariableScopeView, name: Seq<char>)
    ensures
        scope is Global ==> scope.permits(name),
        scope matches VariableScopeView::Restricted(s) ==> (scope.permits(name) <==> s.contains(
            name,
        )),
{
}

impl VariableScope {
    /// Whether an accessor called `name` is allowed by this scope.
    pub fn permits(&self, name: &str) -> (r: bool)
        ensures
            r == self@.permits(name@),
    {
        match self {
            VariableScope::Global => true,
            VariableScope::Restricted(names) => {
                let n = names.len();
                let mut i: usize = 0;
                #[verifier::loop_isolation(false)]
        while i < n
                    invariant
                        0 <= i <= n,
                        n == names@.len(),
                        forall|j: int| 0 <= j < i ==> strings_view(names@)[j] != name@,
                    decreases n - i,
                {
                    if str_eq(names[i].as_str(), name) {
                        assert(strings_view(names@)[i as int] == name@);
                        return true;
                    }
                    i = i + 1;
                }
                assert(!strings_view(names@).contains(name@));
                false
            },
        }
    }

    /// An owned copy with the same view.
    pub fn duplicate(&self) -> (r: Self)
        ensures
            r@ == self@,
    {
        match self {
            VariableScope::Global => VariableScope::Global,
            VariableScope::Restricted(names) => {
                let n = names.len();
                let mut out: Vec<String> = Vec::new();
                let mut i: usize = 0;
                #[verifier::loop_isolation(false)]
        while i < n
                    invariant
                        0 <= i <= n,
                        n == names@.len(),
                        strings_view(out@) =~= strings_view(names@).take(i as int),
                    decreases n - i,
                {
                    out.push(names[i].clone());
                    i = i + 1;
                    assert(strings_view(out@) =~= strings_view(names@).take(i as int));
                }
                assert(strings_view(out@) =~= strings_view(names@));
                VariableScope::Restricted(out)
            },
        }
    }
}

/// A variable's current value together with how it was set.
#[derive(Debug)]
pub struct ValueContext {
    pub value: String,
    pub updated_by: ValueUpdatedBy,
}

pub struct ValueContextView {
    pub value: Seq<char>,
    pub updated_by: ValueUpdatedByView,
}

impl View for ValueContext {
    type V = ValueContextView;

    open spec fn view(&self) -> ValueContextView {
        ValueContextView { value: self.value@, updated_by: self.updated_by@ }
    }
}

impl ValueContext {
    pub fn new(value: &str, updated_by: ValueUpdatedBy) -> (r: ValueContext)
        ensures
            r@ == (ValueContextView { value: value@, updated_by: updated_by@ }),
    {
        ValueContext { value: value.to_owned(), updated_by }
    }

    pub fn duplicate(&self) -> (r: Self)
        ensures
            r@ == self@,
    {
        ValueContext { value: self.value.clone(), updated_by: self.updated_by.duplicate() }
    }
}

/// The process environment, handed in by the host as plain data.
#[derive(Debug)]
pub struct EnvVars {
    pub pairs: Vec<(String, String)>,
}

/// View of the environment as a sequence of (name, value) pairs.
pub open spec fn env_view(pairs: Seq<(String, String)>) -> Seq<(Seq<char>, Seq<char>)> {
    pairs.map_values(|p: (String, String)| (p.0@, p.1@))
}

impl View for EnvVars {
    type V = Seq<(Seq<char>, Seq<char>)>;

    open spec fn view(&self) -> Seq<(Seq<char>, Seq<char>)> {
        env_view(self.pairs@)
    }
}

/// Value of the first pair whose name equals `name`, if any.
pub open spec fn env_lookup(pairs: Seq<(Seq<char>, Seq<char>)>, name: Seq<char>) -> Option<
    Seq<char>,
>
    decreases pairs.len(),
{
    if pairs.len() == 0 {
        None
    } else if pairs[0].0 == name {
        Some(pairs[0].1)
    } else {
        env_lookup(pairs.drop_first(), name)
    }
}

impl EnvVars {
    pub fn new() -> (r: EnvVars)
        ensures
            r@ =~= Seq::<(Seq<char>, Seq<char>)>::empty(),
    {
        EnvVars { pairs: Vec::new() }
    }

    pub fn push(&mut self, name: &str, value: &str)
        ensures
            final(self)@ =~= old(self)@.push((name@, value@)),
    {
        self.pairs.push((name.to_owned(), value.to_owned()));
        assert(final(self)@ =~= old(self)@.push((name@, value@)));
    }

    /// The value bound to `name`, if the environment has one.
    pub fn lookup(&self, name: &str) -> (r: Option<String>)
        ensures
            match r {
                Some(v) => env_lookup(self@, name@) == Some(v@),
                None => env_lookup(self@, name@) is None,
            },
    {
        let n = self.pairs.len();
        let mut i: usize = 0;
        assert(self@.skip(0) =~= self@);
        #[verifier::loop_isolation(false)]
        while i < n
            invariant
                0 <= i <= n,
                n == self.pairs@.len(),
                env_lookup(self@, name@) == env_lookup(self@.skip(i as int), name@),
            decreases n - i,
        {
            if str_eq(self.pairs[i].0.as_str(), name) {
                assert(self@.skip(i as int)[0] == (self.pairs@[i as int].0@,
                self.pairs@[i as int].1@));
                return Some(self.pairs[i].1.clone());
            }
            assert(self@.skip(i as int).drop_first() =~= self@.skip(i as int + 1));
            i = i + 1;
        }
        assert(self@.skip(n as int) =~= Seq::<(Seq<char>, Seq<char>)>::empty());
        None
    }
}

// ---------------------------------------------------------------------------
// Attribute validation
// ---------------------------------------------------------------------------
/// An `env` attribute must be a nonempty name without spaces.
pub open spec fn spec_validate_env(env: Option<Seq<char>>) -> Result<
    Option<Seq<char>>,
    StdlibErrorView,
> {
    match env {
        None => Ok(None),
        Some(e) => {
            if e.len() == 0 {
                Err(invalid_attr_view("env"@, "cannot be empty"@, e))
            } else if e.contains(' ') {
                Err(invalid_attr_view("env"@, "cannot contain spaces"@, e))
            } else {
                Ok(Some(e))
            }
        },
    }
}

/// A `cli_flag` attribute must look like `-x` or `--xxx`.
pub open spec fn spec_validate_cli_flag(flag: Option<Seq<char>>) -> Result<
    Option<Seq<char>>,
    StdlibErrorView,
> {
    match flag {
        None => Ok(None),
        Some(f) => {
            if f.len() == 0 {
                Err(invalid_attr_view("cli_flag"@, "cannot be empty"@, f))
            } else if f.contains(' ') {
                Err(invalid_attr_view("cli_flag"@, "cannot contain spaces"@, f))
            } else if f.len() <= 2 && !(f.len() == 2 && f[0] == '-' && f[1] != '-') {
                Err(invalid_attr_view("cli_flag"@, "short flags must take the form -v"@, f))
            } else if f.len() > 2 && !(f[0] == '-' && f[1] == '-') {
                Err(invalid_attr_view("cli_flag"@, "long flags must take the form --value"@, f))
            } else {
                Ok(Some(f))
            }
        },
    }
}

/// Every scope entry must be a nonempty name without spaces.
pub open spec fn spec_validate_scope_list(names: Seq<Seq<char>>) -> Result<(), StdlibErrorView>
    decreases names.len(),
{
    if names.len() == 0 {
        Ok(())
    } else if names[0].len() == 0 {
        Err(invalid_attr_view("scope"@, "scopes cannot contain empty strings"@, names[0]))
    } else if names[0].contains(' ') {
        Err(invalid_attr_view("scope"@, "scopes cannot contain spaces"@, names[0]))
    } else {
        spec_validate_scope_list(names.drop_first())
    }
}

pub open spec fn spec_validate_scope(names: Option<Seq<Seq<char>>>) -> Result<
    VariableScopeView,
    StdlibErrorView,
> {
    match names {
        None => Ok(VariableScopeView::Global),
        Some(l) => match spec_validate_scope_list(l) {
            Ok(u) => Ok(VariableScopeView::Restricted(l)),
            Err(e) => Err(e),
        },
    }
}

pub open spec fn opt_str_view(s: Option<&str>) -> Option<Seq<char>> {
    match s {
        Some(v) => Some(v@),
        None => None,
    }
}

// ---------------------------------------------------------------------------
// VariableEntry
// ---------------------------------------------------------------------------
/// The registry's record of one variable: its current value and provenance,
/// its resolution sources, and its access scopes.
#[derive(Debug)]
pub struct VariableEntry {
    pub value_ctx: Option<ValueContext>,
    pub env: Option<String>,
    pub cli_flag: Option<String>,
    pub readers: VariableScope,
    pub writers: VariableScope,
}

pub struct VariableEntryView {
    pub value_ctx: Option<ValueContextView>,
    pub env: Option<Seq<char>>,
    pub cli_flag: Option<Seq<char>>,
    pub readers: VariableScopeView,
    pub writers: VariableScopeView,
}

impl View for VariableEntry {
    type V = VariableEntryView;

    open spec fn view(&self) -> VariableEntryView {
        VariableEntryView {
            value_ctx: match self.value_ctx {
                Some(ref c) => Some(c@),
                None => None,
            },
            env: match self.env {
                Some(ref s) => Some(s@),
                None => None,
            },
            cli_flag: match self.cli_flag {
                Some(ref s) => Some(s@),
                None => None,
            },
            readers: self.readers@,
            writers: self.writers@,
        }
    }
}

/// First value following an element equal to `flag`, scanning pairwise.
pub open spec fn spec_find_cli_flag_value(flag: Seq<char>, args: Seq<Seq<char>>) -> Option<
    Seq<char>,
>
    decreases args.len(),
{
    if args.len() == 0 {
        None
    } else if args[0] == flag {
        if args.len() >= 2 {
            Some(args[1])
        } else {
            None
        }
    } else {
        spec_find_cli_flag_value(flag, args.drop_first())
    }
}

/// A realized entry: the entry after one attempt to resolve its value from
/// the command line first and the environment second, leaving it unchanged
/// when neither source applies.
pub open spec fn spec_realize_entry(
    e: VariableEntryView,
    args: Seq<Seq<char>>,
    env: Seq<(Seq<char>, Seq<char>)>,
) -> VariableEntryView {
    match e.cli_flag {
        Some(f) => match spec_find_cli_flag_value(f, args) {
            Some(v) => VariableEntryView {
                value_ctx: Some(
                    ValueContextView { value: v, updated_by: ValueUpdatedByView::CLIFlag(f) },
                ),
                ..e
            },
            None => spec_realize_entry_env(e, env),
        },
        None => spec_realize_entry_env(e, env),
    }
}

pub open spec fn spec_realize_entry_env(
    e: VariableEntryView,
    env: Seq<(Seq<char>, Seq<char>)>,
) -> VariableEntryView {
    match e.env {
        Some(k) => match env_lookup(env, k) {
            Some(v) => VariableEntryView {
                value_ctx: Some(
                    ValueContextView {
                        value: v,
                        updated_by: ValueUpdatedByView::EnvironmentVariable(k),
                    },
                ),
                ..e
            },
            None => e,
        },
        None => e,
    }
}

/// Why a single realization attempt did not update the value.
#[derive(Debug)]
pub enum RealizeError {
    NoCliFlagSet,
    FlagNotInArgs(String),
    NoEnvSet,
    EnvVarNotSet(String),
}

pub enum RealizeErrorView {
    NoCliFlagSet,
    FlagNotInArgs(Seq<char>),
    NoEnvSet,
    EnvVarNotSet(Seq<char>),
}

impl View for RealizeError {
    type V = RealizeErrorView;

    open spec fn view(&self) -> RealizeErrorView {
        match self {
            RealizeError::NoCliFlagSet => RealizeErrorView::NoCliFlagSet,
            RealizeError::FlagNotInArgs(s) => RealizeErrorView::FlagNotInArgs(s@),
            RealizeError::NoEnvSet => RealizeErrorView::NoEnvSet,
            RealizeError::EnvVarNotSet(s) => RealizeErrorView::EnvVarNotSet(s@),
        }
    }
}

impl VariableEntry {
    /// Builds an entry from the raw attributes of a `variable(...)`
    /// declaration, validating each of them.
    pub fn new(
        default: Option<&str>,
        env: Option<&str>,
        cli_flag: Option<&str>,
        readers: Option<Vec<String>>,
        writers: Option<Vec<String>>,
    ) -> (r: Result<VariableEntry, StdlibError>)
        ensures
            match r {
                Ok(e) => {
                    &&& spec_validate_env(opt_str_view(env)) == Ok::<_, StdlibErrorView>(
                        e@.env,
                    )
                    &&& spec_validate_cli_flag(opt_str_view(cli_flag)) == Ok::<
                        _,
                        StdlibErrorView,
                    >(e@.cli_flag)
                    &&& spec_validate_scope(
                        match readers {
                            Some(v) => Some(strings_view(v@)),
                            None => None,
                        },
                    ) == Ok::<_, StdlibErrorView>(e@.readers)
                    &&& spec_validate_scope(
                        match writers {
                            Some(v) => Some(strings_view(v@)),
                            None => None,
                        },
                    ) == Ok::<_, StdlibErrorView>(e@.writers)
                    &&& e@.value_ctx == match opt_str_view(default) {
                        Some(d) => Some(
                            ValueContextView {
                                value: d,
                                updated_by: ValueUpdatedByView::DefaultValue,
                            },
                        ),
                        None => None::<ValueContextView>,
                    }
                },
                Err(er) => {
                    let ev = spec_validate_env(opt_str_view(env));
                    let cv = spec_validate_cli_flag(opt_str_view(cli_flag));
                    let rv = spec_validate_scope(
                        match readers {
                            Some(v) => Some(strings_view(v@)),
                            None => None,
                        },
                    );
                    let wv = spec_validate_scope(
                        match writers {
                            Some(v) => Some(strings_view(v@)),
                            None => None,
                        },
                    );
                    if ev is Err {
                        Err::<Option<Seq<char>>, StdlibErrorView>(er@) == ev
                    } else if cv is Err {
                        Err::<Option<Seq<char>>, StdlibErrorView>(er@) == cv
                    } else if rv is Err {
                        Err::<VariableScopeView, StdlibErrorView>(er@) == rv
                    } else {
                        Err::<VariableScopeView, StdlibErrorView>(er@) == wv
                    }
                },
            },
    {
        let env = match VariableEntry::validate_env(env) {
            Ok(v) => v,
            Err(e) => {
                return Err(e);
            },
        };
        let cli_flag = match VariableEntry::validate_cli_flag(cli_flag) {
            Ok(v) => v,
            Err(e) => {
                return Err(e);
            },
        };
        let readers = match VariableEntry::validate_scope(readers) {
            Ok(v) => v,
            Err(e) => {
                return Err(e);
            },
        };
        let writers = match VariableEntry::validate_scope(writers) {
            Ok(v) => v,
            Err(e) => {
                return Err(e);
            },
        };
        let value_ctx = match default {
            Some(d) => Some(ValueContext::new(d, ValueUpdatedBy::DefaultValue)),
            None => None,
        };
        Ok(VariableEntry { value_ctx, env, cli_flag, readers, writers })
    }

    /// Checks the `env` attribute: nonempty, no spaces.
    pub fn validate_env(env: Option<&str>) -> (r: Result<Option<String>, StdlibError>)
        ensures
            match r {
                Ok(v) => spec_validate_env(opt_str_view(env)) == Ok::<_, StdlibErrorView>(
                    match v {
                        Some(s) => Some(s@),
                        None => None::<Seq<char>>,
                    },
                ),
                Err(e) => spec_validate_env(opt_str_view(env)) == Err::<Option<Seq<char>>, _>(e@),
            },
    {
        match env {
            None => Ok(None),
            Some(e) => {
                if e.unicode_len() == 0 {
                    Err(StdlibError::new_invalid_attr("env", "cannot be empty", e))
                } else if str_contains_char(e, ' ') {
                    Err(StdlibError::new_invalid_attr("env", "cannot contain spaces", e))
                } else {
                    Ok(Some(e.to_owned()))
                }
            },
        }
    }

    /// Checks the `cli_flag` attribute: `-x` short form or `--xxx` long form.
    pub fn validate_cli_flag(cli_flag: Option<&str>) -> (r: Result<Option<String>, StdlibError>)
        ensures
            match r {
                Ok(v) => spec_validate_cli_flag(opt_str_view(cli_flag)) == Ok::<
                    _,
                    StdlibErrorView,
                >(
                    match v {
                        Some(s) => Some(s@),
                        None => None::<Seq<char>>,
                    },
                ),
                Err(e) => spec_validate_cli_flag(opt_str_view(cli_flag)) == Err::<
                    Option<Seq<char>>,
                    _,
                >(e@),
            },
    {
        match cli_flag {
            None => Ok(None),
            Some(f) => {
                let n = f.unicode_len();
                if n == 0 {
                    Err(StdlibError::new_invalid_attr("cli_flag", "cannot be empty", f))
                } else if str_contains_char(f, ' ') {
                    Err(StdlibError::new_invalid_attr("cli_flag", "cannot contain spaces", f))
                } else if n <= 2 && !(n == 2 && f.get_char(0) == '-' && f.get_char(1) != '-') {
                    Err(
                        StdlibError::new_invalid_attr(
                            "cli_flag",
                            "short flags must take the form -v",
                            f,
                        ),
                    )
                } else if n > 2 && !(f.get_char(0) == '-' && f.get_char(1) == '-') {
                    Err(
                        StdlibError::new_invalid_attr(
                            "cli_flag",
                            "long flags must take the form --value",
                            f,
                        ),
                    )
                } else {
                    Ok(Some(f.to_owned()))
                }
            },
        }
    }

    /// Checks a `readers`/`writers` list: every entry nonempty, no spaces.
    pub fn validate_scope(scopes: Option<Vec<String>>) -> (r: Result<VariableScope, StdlibError>)
        ensures
            match r {
                Ok(s) => spec_validate_scope(
                    match scopes {
                        Some(v) => Some(strings_view(v@)),
                        None => None,
                    },
                ) == Ok::<_, StdlibErrorView>(s@),
                Err(e) => spec_validate_scope(
                    match scopes {
                        Some(v) => Some(strings_view(v@)),
                        None => None,
                    },
                ) == Err::<VariableScopeView, _>(e@),
            },
    {
        match scopes {
            None => Ok(VariableScope::Global),
            Some(names) => {
                let n = names.len();
                let mut i: usize = 0;
                assert(strings_view(names@).skip(0) =~= strings_view(names@));
                #[verifier::loop_isolation(false)]
        while i < n
                    invariant
                        0 <= i <= n,
                        n == names@.len(),
                        spec_validate_scope_list(strings_view(names@)) == spec_validate_scope_list(
                            strings_view(names@).skip(i as int),
                        ),
                    decreases n - i,
                {
                    let ghost tail = strings_view(names@).skip(i as int);
                    assert(tail[0] == names@[i as int]@);
                    assert(tail.drop_first() =~= strings_view(names@).skip(i as int + 1));
                    if names[i].as_str().unicode_len() == 0 {
                        assert(spec_validate_scope_list(tail) == Err::<(), StdlibErrorView>(
                            invalid_attr_view(
                                "scope"@,
                                "scopes cannot contain empty strings"@,
                                tail[0],
                            ),
                        ));
                        return Err(
                            StdlibError::new_invalid_attr(
                                "scope",
                                "scopes cannot contain empty strings",
                                names[i].as_str(),
                            ),
                        );
                    }
                    if str_contains_char(names[i].as_str(), ' ') {
                        assert(spec_validate_scope_list(tail) == Err::<(), StdlibErrorView>(
                            invalid_attr_view(
                                "scope"@,
                                "scopes cannot contain spaces"@,
                                tail[0],
                            ),
                        ));
                        return Err(
                            StdlibError::new_invalid_attr(
                                "scope",
                                "scopes cannot contain spaces",
                                names[i].as_str(),
                            ),
                        );
                    }
                    i = i + 1;
                }
                assert(strings_view(names@).skip(n as int) =~= Seq::<Seq<char>>::empty());
                Ok(VariableScope::Restricted(names))
            },
        }
    }

    /// Overwrites the value context, recording the new provenance.
    pub fn update_value(&mut self, val: &str, updated_by: ValueUpdatedBy)
        ensures
            final(self)@ == (VariableEntryView {
                value_ctx: Some(ValueContextView { value: val@, updated_by: updated_by@ }),
                ..old(self)@
            }),
    {
        self.value_ctx = Some(ValueContext::new(val, updated_by));
    }

    /// The current value, if one was ever set.
    pub fn value(&self) -> (r: Option<String>)
        ensures
            match self@.value_ctx {
                Some(c) => r matches Some(s) && s@ == c.value,
                None => r is None,
            },
    {
        match &self.value_ctx {
            Some(c) => Some(c.value.clone()),
            None => None,
        }
    }

    /// The current value context, if one was ever set.
    pub fn value_ctx(&self) -> (r: Option<ValueContext>)
        ensures
            match self@.value_ctx {
                Some(c) => r matches Some(rc) && rc@ == c,
                None => r is None,
            },
    {
        match &self.value_ctx {
            Some(c) => Some(c.duplicate()),
            None => None,
        }
    }

    pub fn env(&self) -> (r: Option<String>)
        ensures
            match self@.env {
                Some(e) => r matches Some(s) && s@ == e,
                None => r is None,
            },
    {
        match &self.env {
            Some(e) => Some(e.clone()),
            None => None,
        }
    }

    pub fn cli_flag(&self) -> (r: Option<String>)
        ensures
            match self@.cli_flag {
                Some(f) => r matches Some(s) && s@ == f,
                None => r is None,
            },
    {
        match &self.cli_flag {
            Some(f) => Some(f.clone()),
            None => None,
        }
    }

    pub fn readers(&self) -> (r: VariableScope)
        ensures
            r@ == self@.readers,
    {
        self.readers.duplicate()
    }

    pub fn writers(&self) -> (r: VariableScope)
        ensures
            r@ == self@.writers,
    {
        self.writers.duplicate()
    }

    /// An owned copy with the same view.
    pub fn duplicate(&self) -> (r: Self)
        ensures
            r@ == self@,
    {
        VariableEntry {
            value_ctx: match &self.value_ctx {
                Some(c) => Some(c.duplicate()),
                None => None,
            },
            env: match &self.env {
                Some(e) => Some(e.clone()),
                None => None,
            },
            cli_flag: match &self.cli_flag {
                Some(f) => Some(f.clone()),
                None => None,
            },
            readers: self.readers.duplicate(),
            writers: self.writers.duplicate(),
        }
    }

    /// An entry assembled directly from parts, bypassing validation;
    /// scopes are global and the default's provenance is `ForTest`.
    pub fn for_test(default: Option<&str>, cli_flag: Option<&str>, env: Option<&str>) -> (r:
        VariableEntry)
        ensures
            r@ == (VariableEntryView {
                value_ctx: match opt_str_view(default) {
                    Some(d) => Some(
                        ValueContextView { value: d, updated_by: ValueUpdatedByView::ForTest },
                    ),
                    None => None,
                },
                env: opt_str_view(env),
                cli_flag: opt_str_view(cli_flag),
                readers: VariableScopeView::Global,
                writers: VariableScopeView::Global,
            }),
    {
        VariableEntry {
            value_ctx: match default {
                Some(d) => Some(ValueContext::new(d, ValueUpdatedBy::ForTest)),
                None => None,
            },
            env: match env {
                Some(e) => Some(e.to_owned()),
                None => None,
            },
            cli_flag: match cli_flag {
                Some(f) => Some(f.to_owned()),
                None => None,
            },
            readers: VariableScope::Global,
            writers: VariableScope::Global,
        }
    }

    /// An entry with no value, no sources and global scopes.
    pub fn empty() -> (r: VariableEntry)
        ensures
            r@ == (VariableEntryView {
                value_ctx: None,
                env: None,
                cli_flag: None,
                readers: VariableScopeView::Global,
                writers: VariableScopeView::Global,
            }),
    {
        VariableEntry {
            value_ctx: None,
            env: None,
            cli_flag: None,
            readers: VariableScope::Global,
            writers: VariableScope::Global,
        }
    }

    /// Scans the args pairwise for the flag; the element after the first
    /// match is the value.
    pub fn find_cli_flag_value(flag: &str, workflow_args: &Vec<String>) -> (r: Option<String>)
        ensures
            match r {
                Some(v) => spec_find_cli_flag_value(flag@, strings_view(workflow_args@)) == Some(
                    v@,
                ),
                None => spec_find_cli_flag_value(flag@, strings_view(workflow_args@)) is None,
            },
    {
        let n = workflow_args.len();
        let ghost full = strings_view(workflow_args@);
        let mut i: usize = 0;
        assert(full.skip(0) =~= full);
        #[verifier::loop_isolation(false)]
        while i < n
            invariant
                0 <= i <= n,
                n == workflow_args@.len(),
                full == strings_view(workflow_args@),
                spec_find_cli_flag_value(flag@, full) == spec_find_cli_flag_value(
                    flag@,
                    full.skip(i as int),
                ),
            decreases n - i,
        {
            let ghost tail = full.skip(i as int);
            assert(tail[0] == workflow_args@[i as int]@);
            if str_eq(workflow_args[i].as_str(), flag) {
                if i + 1 < n {
                    assert(tail[1] == workflow_args@[i as int + 1]@);
                    return Some(workflow_args[i + 1].clone());
                } else {
                    assert(tail.len() == 1);
                    return None;
                }
            }
            assert(tail.drop_first() =~= full.skip(i as int + 1));
            i = i + 1;
        }
        assert(full.skip(n as int) =~= Seq::<Seq<char>>::empty());
        None
    }

    /// Tries to take the value from the command line; on success records
    /// `CLIFlag` provenance, otherwise leaves the entry unchanged.
    pub fn try_update_value_from_cli_flag(&mut self, args: &Vec<String>) -> (r: Result<
        (),
        RealizeError,
    >)
        ensures
            match old(self)@.cli_flag {
                None => r matches Err(e) && e@ == RealizeErrorView::NoCliFlagSet && final(self)@
                    == old(self)@,
                Some(f) => match spec_find_cli_flag_value(f, strings_view(args@)) {
                    Some(v) => r is Ok && final(self)@ == (VariableEntryView {
                        value_ctx: Some(
                            ValueContextView {
                                value: v,
                                updated_by: ValueUpdatedByView::CLIFlag(f),
                            },
                        ),
                        ..old(self)@
                    }),
                    None => r matches Err(e) && e@ == RealizeErrorView::FlagNotInArgs(f)
                        && final(self)@ == old(self)@,
                },
            },
    {
        let flag = match &self.cli_flag {
            Some(f) => f.clone(),
            None => {
                return Err(RealizeError::NoCliFlagSet);
            },
        };
        match VariableEntry::find_cli_flag_value(flag.as_str(), args) {
            Some(value) => {
                self.update_value(value.as_str(), ValueUpdatedBy::CLIFlag(flag));
                Ok(())
            },
            None => Err(RealizeError::FlagNotInArgs(flag)),
        }
    }

    /// Tries to take the value from the environment; on success records
    /// `EnvironmentVariable` provenance, otherwise leaves the entry
    /// unchanged.
    pub fn try_update_value_from_env(&mut self, env: &EnvVars) -> (r: Result<(), RealizeError>)
        ensures
            match old(self)@.env {
                None => r matches Err(e) && e@ == RealizeErrorView::NoEnvSet && final(self)@ == old(
                    self,
                )@,
                Some(k) => match env_lookup(env@, k) {
                    Some(v) => r is Ok && final(self)@ == (VariableEntryView {
                        value_ctx: Some(
                            ValueContextView {
                                value: v,
                                updated_by: ValueUpdatedByView::EnvironmentVariable(k),
                            },
                        ),
                        ..old(self)@
                    }),
                    None => r matches Err(e) && e@ == RealizeErrorView::EnvVarNotSet(k)
                        && final(self)@ == old(self)@,
                },
            },
    {
        let key = match &self.env {
            Some(k) => k.clone(),
            None => {
                return Err(RealizeError::NoEnvSet);
            },
        };
        match env.lookup(key.as_str()) {
            Some(value) => {
                self.update_value(value.as_str(), ValueUpdatedBy::EnvironmentVariable(key));
                Ok(())
            },
            None => Err(RealizeError::EnvVarNotSet(key)),
        }
    }

    /// Realizes the entry: command line first, environment second,
    /// otherwise untouched.
    pub fn realize(&mut self, args: &Vec<String>, env: &EnvVars)
        ensures
            final(self)@ == spec_realize_entry(old(self)@, strings_view(args@), env@),
    {
        if self.try_update_value_from_cli_flag(args).is_ok() {
            return ;
        }
        if self.try_update_value_from_env(env).is_ok() {
            return ;
        }
    }
}

// ---------------------------------------------------------------------------
// VariableRef
// ---------------------------------------------------------------------------
/// Relies on `uuid::Uuid::new_v4` and its `Display` form: a freshly drawn
/// random identifier, rendered in the 36-character hyphenated format.
#[verifier::external_body]
fn fresh_identifier() -> (r: String)
    ensures
        r@.len() == 36,
{
    uuid::Uuid::new_v4().to_string()
}

/// The value handed back to the script when a variable is declared; it
/// carries only the generated registry identifier.
#[derive(Debug)]
pub struct VariableRef {
    pub identifier: String,
}

impl View for VariableRef {
    type V = Seq<char>;

    open spec fn view(&self) -> Seq<char> {
        self.identifier@
    }
}

impl VariableRef {
    /// A reference under a freshly generated identifier.
    pub fn new() -> (r: VariableRef)
        ensures
            r@.len() == 36,
    {
        VariableRef { identifier: fresh_identifier() }
    }

    /// A reference under the given identifier.
    pub fn with_identifier(identifier: &str) -> (r: VariableRef)
        ensures
            r@ == identifier@,
    {
        VariableRef { identifier: identifier.to_owned() }
    }

    pub fn identifier(&self) -> (r: &str)
        ensures
            r@ == self@,
    {
        self.identifier.as_str()
    }

    pub fn duplicate(&self) -> (r: Self)
        ensures
            r@ == self@,
    {
        VariableRef { identifier: self.identifier.clone() }
    }
}

} // verus!
