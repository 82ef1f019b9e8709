use vstd::prelude::*;

use crate::errors::{AccessError, AccessErrorView, StdlibError, StdlibErrorView};
use crate::parse_context::StringInterpolator;
use crate::paths::{spec_join_path, join_path, which_lookup};
use crate::text::str_contains_char;
use crate::variable::{
    env_lookup, invalid_attr_view, opt_str_view, spec_find_cli_flag_value, spec_realize_entry,
    strings_view, EnvVars, RealizeError, RealizeErrorView, ValueContext, ValueContextView,
    ValueUpdatedBy, ValueUpdatedByView, VariableEntry, VariableEntryView, VariableScope,
    VariableScopeView,
};

verus! {

/// A `name` attribute must be a nonempty name without spaces.
pub open spec fn spec_validate_name(name: Seq<char>) -> Result<Seq<char>, StdlibErrorView> {
    if name.len() == 0 {
        Err(invalid_attr_view("name"@, "cannot be empty"@, name))
    } else if name.contains(' ') {
        Err(invalid_attr_view("name"@, "cannot contain spaces"@, name))
    } else {
        Ok(name)
    }
}

/// Checks the `name` attribute of a declaration: nonempty, no spaces.
pub fn validate_name(name: &str) -> (r: Result<String, StdlibError>)
    ensures
        match r {
            Ok(v) => spec_validate_name(name@) == Ok::<_, StdlibErrorView>(v@),
            Err(e) => spec_validate_name(name@) == Err::<Seq<char>, _>(e@),
        },
{
    if name.unicode_len() == 0 {
        Err(StdlibError::new_invalid_attr("name", "cannot be empty", name))
    } else if str_contains_char(name, ' ') {
        Err(StdlibError::new_invalid_attr("name", "cannot contain spaces", name))
    } else {
        Ok(name.to_owned())
    }
}

/// A `path` attribute must be a nonempty string without spaces.
pub open spec fn spec_validate_path(path: Seq<char>) -> Result<Seq<char>, StdlibErrorView> {
    if path.len() == 0 {
        Err(invalid_attr_view("path"@, "cannot be empty"@, path))
    } else if path.contains(' ') {
        Err(invalid_attr_view("path"@, "cannot contain spaces"@, path))
    } else {
        Ok(path)
    }
}

/// Checks the `path` attribute of a tool declaration.
pub fn validate_path(path: &str) -> (r: Result<String, StdlibError>)
    ensures
        match r {
            Ok(v) => spec_validate_path(path@) == Ok::<_, StdlibErrorView>(v@),
            Err(e) => spec_validate_path(path@) == Err::<Seq<char>, _>(e@),
        },
{
    if path.unicode_len() == 0 {
        Err(StdlibError::new_invalid_attr("path", "cannot be empty", path))
    } else if str_contains_char(path, ' ') {
        Err(StdlibError::new_invalid_attr("path", "cannot contain spaces", path))
    } else {
        Ok(path.to_owned())
    }
}

// ---------------------------------------------------------------------------
// Variable
// ---------------------------------------------------------------------------
/// A variable bound under a script-visible name, with scope-checked
/// access by that name.
#[derive(Debug)]
pub struct Variable {
    pub name: String,
    pub entry: VariableEntry,
}

pub struct VariableView {
    pub name: Seq<char>,
    pub entry: VariableEntryView,
}

impl View for Variable {
    type V = VariableView;

    open spec fn view(&self) -> VariableView {
        VariableView { name: self.name@, entry: self.entry@ }
    }
}

impl Variable {
    /// Builds a named variable, validating the name.
    pub fn new(name: &str, entry: VariableEntry) -> (r: Result<Variable, StdlibError>)
        ensures
            match r {
                Ok(v) => spec_validate_name(name@) == Ok::<_, StdlibErrorView>(v@.name) && v@.entry
                    == entry@,
                Err(e) => spec_validate_name(name@) == Err::<Seq<char>, _>(e@),
            },
    {
        let name = match validate_name(name) {
            Ok(n) => n,
            Err(e) => {
                return Err(e);
            },
        };
        Ok(Variable { name, entry })
    }

    pub fn name(&self) -> (r: String)
        ensures
            r@ == self@.name,
    {
        self.name.clone()
    }

    /// Scope-checked read by accessor name: fails when the readers scope
    /// excludes `reader` or the variable has no value.
    pub fn read_value(&self, reader: &str) -> (r: Result<String, AccessError>)
        ensures
            if !self@.entry.readers.permits(reader@) {
                r matches Err(e) && e@ == (AccessErrorView::NotInReadScope {
                    variable: self@.name,
                    reader: reader@,
                })
            } else {
                match self@.entry.value_ctx {
                    Some(c) => r matches Ok(s) && s@ == c.value,
                    None => r matches Err(e) && e@ == AccessErrorView::NoValueSet(self@.name),
                }
            },
    {
        if !self.entry.readers.permits(reader) {
            Err(
                AccessError::NotInReadScope {
                    variable: self.name.clone(),
                    reader: reader.to_owned(),
                },
            )
        } else {
            match self.entry.value() {
                Some(v) => Ok(v),
                None => Err(AccessError::NoValueSet(self.name.clone())),
            }
        }
    }

    /// Scope-checked write by accessor name; the new value is attributed
    /// to the writing action.
    pub fn write_value(&mut self, value: &str, writer: &str) -> (r: Result<(), AccessError>)
        ensures
            if !old(self)@.entry.writers.permits(writer@) {
                r matches Err(e) && e@ == (AccessErrorView::NotInWriteScope {
                    variable: old(self)@.name,
                    writer: writer@,
                }) && final(self)@ == old(self)@
            } else {
                r is Ok && final(self)@ == (VariableView {
                    entry: VariableEntryView {
                        value_ctx: Some(
                            ValueContextView {
                                value: value@,
                                updated_by: ValueUpdatedByView::Action(writer@),
                            },
                        ),
                        ..old(self)@.entry
                    },
                    ..old(self)@
                })
            },
    {
        if !self.entry.writers.permits(writer) {
            Err(
                AccessError::NotInWriteScope {
                    variable: self.name.clone(),
                    writer: writer.to_owned(),
                },
            )
        } else {
            self.entry.update_value(value, ValueUpdatedBy::Action(writer.to_owned()));
            Ok(())
        }
    }

    /// Tries to take the value from the command line, as the entry does.
    pub fn try_update_value_from_cli_flag(&mut self, args: &Vec<String>) -> (r: Result<
        (),
        RealizeError,
    >)
        ensures
            final(self)@.name == old(self)@.name,
            match old(self)@.entry.cli_flag {
                None => r matches Err(e) && e@ == RealizeErrorView::NoCliFlagSet && final(self)@
                    == old(self)@,
                Some(f) => match spec_find_cli_flag_value(f, strings_view(args@)) {
                    Some(v) => r is Ok && final(self)@.entry == (VariableEntryView {
                        value_ctx: Some(
                            ValueContextView {
                                value: v,
                                updated_by: ValueUpdatedByView::CLIFlag(f),
                            },
                        ),
                        ..old(self)@.entry
                    }),
                    None => r matches Err(e) && e@ == RealizeErrorView::FlagNotInArgs(f)
                        && final(self)@ == old(self)@,
                },
            },
    {
        self.entry.try_update_value_from_cli_flag(args)
    }

    /// Tries to take the value from the environment, as the entry does.
    pub fn try_update_value_from_env(&mut self, env: &EnvVars) -> (r: Result<(), RealizeError>)
        ensures
            final(self)@.name == old(self)@.name,
            match old(self)@.entry.env {
                None => r matches Err(e) && e@ == RealizeErrorView::NoEnvSet && final(self)@ == old(
                    self,
                )@,
                Some(k) => match env_lookup(env@, k) {
                    Some(v) => r is Ok && final(self)@.entry == (VariableEntryView {
                        value_ctx: Some(
                            ValueContextView {
                                value: v,
                                updated_by: ValueUpdatedByView::EnvironmentVariable(k),
                            },
                        ),
                        ..old(self)@.entry
                    }),
                    None => r matches Err(e) && e@ == RealizeErrorView::EnvVarNotSet(k)
                        && final(self)@ == old(self)@,
                },
            },
    {
        self.entry.try_update_value_from_env(env)
    }

    /// Realizes the variable: command line first, environment second.
    pub fn realize(&mut self, args: &Vec<String>, env: &EnvVars)
        ensures
            final(self)@.name == old(self)@.name,
            final(self)@.entry == spec_realize_entry(old(self)@.entry, strings_view(args@), env@),
    {
        self.entry.realize(args, env);
    }

    /// An owned copy with the same view.
    pub fn duplicate(&self) -> (r: Self)
        ensures
            r@ == self@,
    {
        Variable { name: self.name.clone(), entry: self.entry.duplicate() }
    }

    /// A detached, display-ready copy of the variable.
    pub fn freeze(&self) -> (r: FrozenVariable)
        ensures
            r@ == spec_freeze_variable(self@),
    {
        FrozenVariable {
            name: self.name.clone(),
            env: self.entry.env(),
            cli_flag: self.entry.cli_flag(),
            readers: self.entry.readers(),
            writers: self.entry.writers(),
            value_ctx: self.entry.value_ctx(),
        }
    }

    /// A variable assembled directly from parts, with global scopes.
    pub fn for_test(name: &str, default: Option<&str>, cli_flag: Option<&str>, env: Option<
        &str,
    >) -> (r: Variable)
        ensures
            r@.name == name@,
            r@.entry == (VariableEntryView {
                value_ctx: match opt_str_view(default) {
                    Some(d) => Some(
                        ValueContextView { value: d, updated_by: ValueUpdatedByView::ForTest },
                    ),
                    None => None,
                },
                env: opt_str_view(env),
                cli_flag: opt_str_view(cli_flag),
                readers: VariableScopeView::Global,
                writers: VariableScopeView::Global,
            }),
    {
        Variable { name: name.to_owned(), entry: VariableEntry::for_test(default, cli_flag, env) }
    }

    /// A variable whose readers and writers are restricted to one name.
    pub fn for_test_restricted(name: &str, scope: &str) -> (r: Variable)
        ensures
            r@.name == name@,
            r@.entry.readers == VariableScopeView::Restricted(seq![scope@]),
            r@.entry.writers == VariableScopeView::Restricted(seq![scope@]),
            r@.entry.value_ctx is None,
    {
        let mut readers: Vec<String> = Vec::new();
        readers.push(scope.to_owned());
        let mut writers: Vec<String> = Vec::new();
        writers.push(scope.to_owned());
        let v = Variable {
            name: name.to_owned(),
            entry: VariableEntry {
                value_ctx: None,
                env: None,
                cli_flag: None,
                readers: VariableScope::Restricted(readers),
                writers: VariableScope::Restricted(writers),
            },
        };
        assert(strings_view(v.entry.readers->Restricted_0@) =~= seq![scope@]);
        assert(strings_view(v.entry.writers->Restricted_0@) =~= seq![scope@]);
        v
    }
}

/// View of a frozen variable; the same shape as the live one.
pub struct FrozenVariableView {
    pub name: Seq<char>,
    pub env: Option<Seq<char>>,
    pub cli_flag: Option<Seq<char>>,
    pub readers: VariableScopeView,
    pub writers: VariableScopeView,
    pub value_ctx: Option<ValueContextView>,
}

/// What freezing a variable yields: all display-relevant fields, copied.
pub open spec fn spec_freeze_variable(v: VariableView) -> FrozenVariableView {
    FrozenVariableView {
        name: v.name,
        env: v.entry.env,
        cli_flag: v.entry.cli_flag,
        readers: v.entry.readers,
        writers: v.entry.writers,
        value_ctx: v.entry.value_ctx,
    }
}

/// A detached, point-in-time copy of a variable's display-relevant
/// fields; safe to keep while the live registry changes.
#[derive(Debug)]
pub struct FrozenVariable {
    pub name: String,
    pub env: Option<String>,
    pub cli_flag: Option<String>,
    pub readers: VariableScope,
    pub writers: VariableScope,
    pub value_ctx: Option<ValueContext>,
}

impl View for FrozenVariable {
    type V = FrozenVariableView;

    open spec fn view(&self) -> FrozenVariableView {
        FrozenVariableView {
            name: self.name@,
            env: match self.env {
                Some(ref s) => Some(s@),
                None => None,
            },
            cli_flag: match self.cli_flag {
                Some(ref s) => Some(s@),
                None => None,
            },
            readers: self.readers@,
            writers: self.writers@,
            value_ctx: match self.value_ctx {
                Some(ref c) => Some(c@),
                None => None,
            },
        }
    }
}

// ---------------------------------------------------------------------------
// Tool
// ---------------------------------------------------------------------------
/// A tool declared under a name: looked up on PATH when builtin, or
/// resolved from a path relative to the workflow's directory.
#[derive(Debug, PartialEq)]
pub struct Tool {
    pub name: String,
    pub builtin: bool,
    pub path: Option<String>,
    pub root: Option<String>,
}

pub struct ToolView {
    pub name: Seq<char>,
    pub builtin: bool,
    pub path: Option<Seq<char>>,
    pub root: Option<Seq<char>>,
}

impl View for Tool {
    type V = ToolView;

    open spec fn view(&self) -> ToolView {
        ToolView {
            name: self.name@,
            builtin: self.builtin,
            path: match self.path {
                Some(ref s) => Some(s@),
                None => None,
            },
            root: match self.root {
                Some(ref s) => Some(s@),
                None => None,
            },
        }
    }
}

/// The candidate path a tool resolves to before the executable lookup:
/// its own name for builtins; otherwise the interpolated path joined
/// onto the root when relative. None when interpolation fails or a
/// path-based tool is missing its path or root.
pub open spec fn spec_tool_candidate<T: StringInterpolator>(t: ToolView, interpolator: &T) -> Option<
    Seq<char>,
> {
    if t.builtin {
        Some(t.name)
    } else {
        match t.path {
            None => None,
            Some(p) => match interpolator.spec_interpolate(p, t.name) {
                Err(e) => None,
                Ok(ip) => match t.root {
                    None => None,
                    Some(root) => Some(spec_join_path(root, ip)),
                },
            },
        }
    }
}

impl Tool {
    /// A tool found on the user's PATH under its own name.
    pub fn builtin(name: &str) -> (r: Result<Tool, StdlibError>)
        ensures
            match r {
                Ok(t) => spec_validate_name(name@) == Ok::<_, StdlibErrorView>(t@.name) && t@
                    == (ToolView { name: t@.name, builtin: true, path: None, root: None }),
                Err(e) => spec_validate_name(name@) == Err::<Seq<char>, _>(e@),
            },
    {
        let name = match validate_name(name) {
            Ok(n) => n,
            Err(e) => {
                return Err(e);
            },
        };
        Ok(Tool { name, builtin: true, path: None, root: None })
    }

    /// A tool at a path, relative to `root` (the workflow's directory)
    /// unless absolute.
    pub fn path_based(name: &str, path: &str, root: &str) -> (r: Result<Tool, StdlibError>)
        ensures
            match r {
                Ok(t) => spec_validate_name(name@) == Ok::<_, StdlibErrorView>(t@.name)
                    && spec_validate_path(path@) is Ok && t@ == (ToolView {
                    name: t@.name,
                    builtin: false,
                    path: Some(path@),
                    root: Some(root@),
                }),
                Err(e) => spec_validate_name(name@) == Err::<Seq<char>, _>(e@) || (
                spec_validate_name(name@) is Ok && spec_validate_path(path@) == Err::<
                    Seq<char>,
                    _,
                >(e@)),
            },
    {
        let name = match validate_name(name) {
            Ok(n) => n,
            Err(e) => {
                return Err(e);
            },
        };
        let path = match validate_path(path) {
            Ok(p) => p,
            Err(e) => {
                return Err(e);
            },
        };
        Ok(Tool { name, builtin: false, path: Some(path), root: Some(root.to_owned()) })
    }

    pub fn name(&self) -> (r: String)
        ensures
            r@ == self@.name,
    {
        self.name.clone()
    }

    /// The candidate path before the executable lookup.
    pub fn candidate_path<T: StringInterpolator>(&self, interpolator: &T) -> (r: Option<String>)
        ensures
            match r {
                Some(p) => spec_tool_candidate(self@, interpolator) == Some(p@),
                None => spec_tool_candidate(self@, interpolator) is None,
            },
    {
        if self.builtin {
            return Some(self.name.clone());
        }
        let path = match &self.path {
            Some(p) => p,
            None => {
                return None;
            },
        };
        let interpolated = match interpolator.interpolate(path.as_str(), self.name.as_str()) {
            Ok(ip) => ip,
            Err(e) => {
                return None;
            },
        };
        let root = match &self.root {
            Some(r) => r,
            None => {
                return None;
            },
        };
        Some(join_path(root.as_str(), interpolated.as_str()))
    }

    /// The tool's executable path, if the file system has one. Resolution
    /// is recomputed on every call, because the variables the path
    /// depends on may have changed.
    pub fn cmd<T: StringInterpolator>(&self, interpolator: &T) -> (r: Option<String>)
        ensures
            spec_tool_candidate(self@, interpolator) is None ==> r is None,
    {
        match self.candidate_path(interpolator) {
            None => None,
            Some(p) => which_lookup(p.as_str()),
        }
    }

    /// A detached, display-ready copy, with the executable lookup done
    /// now.
    pub fn freeze<T: StringInterpolator>(&self, interpolator: &T) -> (r: FrozenTool)
        ensures
            r@.name == self@.name,
            r@.builtin == self@.builtin,
            r@.path == self@.path,
            spec_tool_candidate(self@, interpolator) is None ==> r@.cmd is None,
    {
        FrozenTool {
            name: self.name.clone(),
            builtin: self.builtin,
            path: match &self.path {
                Some(p) => Some(p.clone()),
                None => None,
            },
            cmd: self.cmd(interpolator),
        }
    }

    /// A builtin tool assembled directly, bypassing validation.
    pub fn for_test(name: &str) -> (r: Tool)
        ensures
            r@ == (ToolView { name: name@, builtin: true, path: None, root: None }),
    {
        Tool { name: name.to_owned(), builtin: true, path: None, root: None }
    }

    /// An owned copy with the same view.
    pub fn duplicate(&self) -> (r: Self)
        ensures
            r@ == self@,
    {
        Tool {
            name: self.name.clone(),
            builtin: self.builtin,
            path: match &self.path {
                Some(p) => Some(p.clone()),
                None => None,
            },
            root: match &self.root {
                Some(p) => Some(p.clone()),
                None => None,
            },
        }
    }
}

pub struct FrozenToolView {
    pub name: Seq<char>,
    pub builtin: bool,
    pub path: Option<Seq<char>>,
    pub cmd: Option<Seq<char>>,
}

/// A detached, point-in-time copy of a tool's display-relevant fields,
/// with the resolved command path as of the freeze.
#[derive(Debug)]
pub struct FrozenTool {
    pub name: String,
    pub builtin: bool,
    pub path: Option<String>,
    pub cmd: Option<String>,
}

impl View for FrozenTool {
    type V = FrozenToolView;

    open spec fn view(&self) -> FrozenToolView {
        FrozenToolView {
            name: self.name@,
            builtin: self.builtin,
            path: match self.path {
                Some(ref s) => Some(s@),
                None => None,
            },
            cmd: match self.cmd {
                Some(ref s) => Some(s@),
                None => None,
            },
        }
    }
}

} // verus!
