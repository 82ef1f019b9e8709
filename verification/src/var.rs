use vstd::prelude::*;

use crate::type_builder::{Buildable, FieldState};

verus! {

/// The scope of a declared variable: open to all, or restricted to the
/// listed names.
#[derive(Debug)]
pub enum VarScope<'a> {
    Global,
    Restricted(Vec<&'a str>),
}

/// A variable as declared in a workflow definition file.
#[derive(Debug)]
pub struct Var<'a> {
    pub name: &'a str,
    pub default: Option<&'a str>,
    pub env: Option<&'a str>,
    pub cli_flag: Option<&'a str>,
}

impl<'a> Var<'a> {
    pub fn builder() -> (r: VarBuilder<'a>)
        ensures
            r.name is NeedsValue,
            r.default matches FieldState::Default(d) && d is None,
            r.env matches FieldState::Default(d) && d is None,
            r.cli_flag matches FieldState::Default(d) && d is None,
    {
        VarBuilder::new()
    }
}

/// Accumulates the fields of a `Var`, each set at most once.
#[derive(Debug)]
pub struct VarBuilder<'a> {
    pub name: FieldState<&'a str>,
    pub default: FieldState<Option<&'a str>>,
    pub env: FieldState<Option<&'a str>>,
    pub cli_flag: FieldState<Option<&'a str>>,
}

impl<'a> VarBuilder<'a> {
    pub fn new() -> (r: VarBuilder<'a>)
        ensures
            r.name is NeedsValue,
            r.default matches FieldState::Default(d) && d is None,
            r.env matches FieldState::Default(d) && d is None,
            r.cli_flag matches FieldState::Default(d) && d is None,
    {
        VarBuilder {
            name: FieldState::NeedsValue,
            default: FieldState::Default(None),
            env: FieldState::Default(None),
            cli_flag: FieldState::Default(None),
        }
    }

    /// Sets the name; an empty name is recorded as an error.
    pub fn set_name(&mut self, name: &'a str)
        ensures
            final(self).default == old(self).default,
            final(self).env == old(self).env,
            final(self).cli_flag == old(self).cli_flag,
            name@.len() == 0 ==> final(self).name matches FieldState::Error(_),
            name@.len() > 0 ==> match old(self).name {
                FieldState::NeedsValue => final(self).name == FieldState::Value(name),
                FieldState::Default(_) => final(self).name == FieldState::Value(name),
                FieldState::Value(_) => final(self).name matches FieldState::Error(_),
                FieldState::Error(_) => final(self).name matches FieldState::Error(_),
            },
    {
        if name.unicode_len() == 0 {
            self.name = FieldState::Error("name cannot be an empty string.".to_owned());
        }
        self.name = self.name.update(name);
    }

    /// Sets the command line flag; a flag must start with `--`.
    pub fn set_cli_flag(&mut self, val: &'a str)
        ensures
            final(self).name == old(self).name,
            final(self).default == old(self).default,
            final(self).env == old(self).env,
            (val@.len() >= 2 && val@[0] == '-' && val@[1] == '-') ==> match old(self).cli_flag {
                FieldState::NeedsValue => final(self).cli_flag == FieldState::Value(Some(val)),
                FieldState::Default(_) => final(self).cli_flag == FieldState::Value(Some(val)),
                FieldState::Value(_) => final(self).cli_flag matches FieldState::Error(_),
                FieldState::Error(_) => final(self).cli_flag matches FieldState::Error(_),
            },
            !(val@.len() >= 2 && val@[0] == '-' && val@[1] == '-') ==> (final(self).cli_flag
                matches FieldState::Error(m) && m@ == "Flags must start with --"@),
    {
        if val.unicode_len() >= 2 && val.get_char(0) == '-' && val.get_char(1) == '-' {
            self.cli_flag = self.cli_flag.update(Some(val));
        } else {
            self.cli_flag = FieldState::Error("Flags must start with --".to_owned());
        }
    }

    /// Sets the default value.
    pub fn set_default(&mut self, val: &'a str)
        ensures
            final(self).name == old(self).name,
            final(self).env == old(self).env,
            final(self).cli_flag == old(self).cli_flag,
            match old(self).default {
                FieldState::NeedsValue => final(self).default == FieldState::Value(Some(val)),
                FieldState::Default(_) => final(self).default == FieldState::Value(Some(val)),
                FieldState::Value(_) => final(self).default matches FieldState::Error(_),
                FieldState::Error(_) => final(self).default matches FieldState::Error(_),
            },
    {
        self.default = self.default.update(Some(val));
    }

    /// Sets the environment variable name; an empty name is recorded as
    /// an error.
    pub fn set_env(&mut self, val: &'a str)
        ensures
            final(self).name == old(self).name,
            final(self).default == old(self).default,
            final(self).cli_flag == old(self).cli_flag,
            val@.len() == 0 ==> final(self).env matches FieldState::Error(_),
            val@.len() > 0 ==> match old(self).env {
                FieldState::NeedsValue => final(self).env == FieldState::Value(Some(val)),
                FieldState::Default(_) => final(self).env == FieldState::Value(Some(val)),
                FieldState::Value(_) => final(self).env matches FieldState::Error(_),
                FieldState::Error(_) => final(self).env matches FieldState::Error(_),
            },
    {
        if val.unicode_len() == 0 {
            self.env = FieldState::Error("env cannot be an empty string.".to_owned());
        }
        self.env = self.env.update(Some(val));
    }
}

impl<'a> Buildable for VarBuilder<'a> {
    type B = Var<'a>;

    /// The finished variable: each field validated in declaration order,
    /// with the first missing value or recorded error failing the build.
    open spec fn spec_build(&self) -> Result<Var<'a>, Seq<char>> {
        match self.name.spec_validate("Var::name"@) {
            Err(m) => Err(m),
            Ok(name) => match self.default.spec_validate("Var::default"@) {
                Err(m) => Err(m),
                Ok(default) => match self.env.spec_validate("Var::env"@) {
                    Err(m) => Err(m),
                    Ok(env) => match self.cli_flag.spec_validate("Var::cli_flag"@) {
                        Err(m) => Err(m),
                        Ok(cli_flag) => Ok(Var { name, default, env, cli_flag }),
                    },
                },
            },
        }
    }

    fn build(&self) -> (r: Result<Var<'a>, String>)
        ensures
            match self.spec_build() {
                Ok(b) => r matches Ok(rb) && rb == b,
                Err(m) => r matches Err(rm) && rm@ == m,
            },
    {
        let name = match self.name.validate("Var::name") {
            Ok(n) => *n,
            Err(e) => {
                return Err(e);
            },
        };
        let default = match self.default.validate("Var::default") {
            Ok(d) => *d,
            Err(e) => {
                return Err(e);
            },
        };
        let env = match self.env.validate("Var::env") {
            Ok(d) => *d,
            Err(e) => {
                return Err(e);
            },
        };
        let cli_flag = match self.cli_flag.validate("Var::cli_flag") {
            Ok(d) => *d,
            Err(e) => {
                return Err(e);
            },
        };
        Ok(Var { name, default, env, cli_flag })
    }
}

/// Everything a workflow definition file declares.
pub struct WorkflowContent<'a> {
    pub vars: Vec<Var<'a>>,
}

impl<'a> WorkflowContent<'a> {
    pub fn new() -> (r: WorkflowContent<'a>)
        ensures
            r.vars@.len() == 0,
    {
        WorkflowContent { vars: Vec::new() }
    }
}

} // verus!
