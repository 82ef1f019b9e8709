use vstd::prelude::*;

use crate::paths::{spec_join_path, join_path, which_lookup};
use crate::script::{to_late_bound, ScriptValue};
use crate::variables::{
    spec_get_value, FormatError, FormatFailure, LateBoundString, OneOf, VariableResolver,
};

verus! {

/// Errors raised while a tool's path is resolved.
#[derive(Debug)]
pub enum ToolError {
    NoPath,
    Format(FormatError),
    NotFound(String),
}

impl ToolError {
    /// Renders the error as the user-facing message text.
    pub fn message(&self) -> (r: String)
        ensures
            match self {
                ToolError::NoPath => r@ == "tool has no path"@,
                ToolError::Format(e) => true,
                ToolError::NotFound(p) => r@ == "no executable found at '"@ + p@ + "'"@,
            },
    {
        match self {
            ToolError::NoPath => "tool has no path".to_owned(),
            ToolError::Format(e) => e.message(),
            ToolError::NotFound(p) => {
                let mut m = "no executable found at '".to_owned();
                m.append(p.as_str());
                m.append("'");
                m
            },
        }
    }
}

/// A tool as the script declares it: a builtin found on PATH under its
/// name, or a (possibly late-bound) path resolved against the workflow's
/// directory.
#[derive(Debug)]
pub struct Tool {
    pub builtin: bool,
    pub path: Option<LateBoundString>,
    pub name: String,
}

/// The raw, unvalidated path a tool resolves to: the name itself for
/// builtins; otherwise the late-bound path evaluated under the resolver
/// and joined onto the working directory when relative.
pub open spec fn spec_tool_path<R: VariableResolver>(
    t: Tool,
    resolver: &R,
    working_dir: Seq<char>,
) -> Result<Seq<char>, Option<FormatFailure>> {
    if t.builtin {
        Ok(t.name@)
    } else {
        match t.path {
            None => Err(None),
            Some(p) => match spec_get_value(p, resolver) {
                Err(e) => Err(Some(e)),
                Ok(v) => Ok(spec_join_path(working_dir, v)),
            },
        }
    }
}

/// A tool from a `tool(path = ...)` declaration; the path may be a
/// literal, a variable reference or a formatted string.
pub fn tool_impl(path: ScriptValue) -> (r: Tool)
    ensures
        !r.builtin,
        r.name@ == ""@,
        match path {
            ScriptValue::VariableRef(vr) => r.path matches Some(
                LateBoundString(OneOf::Identifier(id)),
            ) && id@ == vr.identifier@,
            ScriptValue::Formatter(f) => r.path == Some(
                LateBoundString(OneOf::ValueFormatter(f)),
            ),
            _ => r.path matches Some(LateBoundString(OneOf::Value(s))) && s@
                == crate::script::spec_display(path),
        },
{
    Tool { builtin: false, path: Some(to_late_bound(path)), name: "".to_owned() }
}

/// A tool from a `builtin_tool(name = ...)` declaration.
pub fn builtin_tool_impl(name: &str) -> (r: Tool)
    ensures
        r.builtin,
        r.name@ == name@,
        r.path is None,
{
    Tool { builtin: true, path: None, name: name.to_owned() }
}

impl Tool {
    /// The tool's raw path: not validated against the file system.
    pub fn path<R: VariableResolver>(&self, resolver: &R, working_dir: &str) -> (r: Result<
        String,
        ToolError,
    >)
        ensures
            match spec_tool_path(*self, resolver, working_dir@) {
                Ok(p) => r matches Ok(s) && s@ == p,
                Err(None) => r matches Err(ToolError::NoPath),
                Err(Some(f)) => r matches Err(ToolError::Format(e)) && e@ == f,
            },
    {
        if self.builtin {
            return Ok(self.name.clone());
        }
        let p = match &self.path {
            Some(p) => p,
            None => {
                return Err(ToolError::NoPath);
            },
        };
        match p.get_value(resolver) {
            Err(e) => Err(ToolError::Format(e)),
            Ok(v) => Ok(join_path(working_dir, v.as_str())),
        }
    }

    /// The tool's real executable path: the raw path validated by an
    /// executable lookup, with a distinct error when none is found.
    /// Resolution is recomputed on every call, because the variables the
    /// path depends on may have changed since parse time.
    pub fn real_path<R: VariableResolver>(&self, resolver: &R, working_dir: &str) -> (r: Result<
        String,
        ToolError,
    >)
        ensures
            match spec_tool_path(*self, resolver, working_dir@) {
                Ok(p) => r matches Ok(_) || (r matches Err(ToolError::NotFound(n)) && n@ == p),
                Err(None) => r matches Err(ToolError::NoPath),
                Err(Some(f)) => r matches Err(ToolError::Format(e)) && e@ == f,
            },
    {
        let path = match self.path(resolver, working_dir) {
            Ok(p) => p,
            Err(e) => {
                return Err(e);
            },
        };
        match which_lookup(path.as_str()) {
            Some(found) => Ok(found),
            None => Err(ToolError::NotFound(path)),
        }
    }

    pub fn is_builtin(&self) -> (r: bool)
        ensures
            r == self.builtin,
    {
        self.builtin
    }

    pub fn name(&self) -> (r: &str)
        ensures
            r@ == self.name@,
    {
        self.name.as_str()
    }
}

} // verus!
