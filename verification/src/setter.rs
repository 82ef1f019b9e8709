use vstd::prelude::*;

use crate::script::{BuildError, ScriptValue};

verus! {

/// A post-action callback paired with the variable it may write: the
/// implementation is a host-side callable handle, the variable its
/// registry identifier.
#[derive(Debug)]
pub struct Setter {
    pub implementation: u64,
    pub variable: String,
}

/// Builds a setter from a `setter(implementation = ..., variable = ...)`
/// declaration: the variable must be a variable reference and the
/// implementation a function.
pub fn setter_impl(implementation: ScriptValue, variable: ScriptValue) -> (r: Result<
    Setter,
    BuildError,
>)
    ensures
        match (implementation, variable) {
            (ScriptValue::Function(h), ScriptValue::VariableRef(vr)) => r matches Ok(s)
                && s.implementation == h && s.variable@ == vr.identifier@,
            (_, ScriptValue::VariableRef(vr)) => r matches Err(BuildError::SetterNotAFunction),
            (_, _) => r matches Err(BuildError::SetterNotAVariable),
        },
{
    let vr = match variable {
        ScriptValue::VariableRef(vr) => vr,
        _ => {
            return Err(BuildError::SetterNotAVariable);
        },
    };
    let h = match implementation {
        ScriptValue::Function(h) => h,
        _ => {
            return Err(BuildError::SetterNotAFunction);
        },
    };
    Ok(Setter { implementation: h, variable: vr.identifier })
}

impl Setter {
    pub fn implementation(&self) -> (r: u64)
        ensures
            r == self.implementation,
    {
        self.implementation
    }

    pub fn variable_identifier(&self) -> (r: &str)
        ensures
            r@ == self.variable@,
    {
        self.variable.as_str()
    }

    /// An owned copy equal in view to `self`.
    pub fn duplicate(&self) -> (r: Self)
        ensures
            r.implementation == self.implementation,
            r.variable@ == self.variable@,
    {
        Setter { implementation: self.implementation, variable: self.variable.clone() }
    }
}

} // verus!
