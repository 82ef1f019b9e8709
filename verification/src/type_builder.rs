use vstd::prelude::*;

verus! {

/// The state of one builder field: an overridable default, a value that
/// must still be supplied, a value set exactly once, or a recorded
/// error.
#[derive(Debug, PartialEq)]
pub enum FieldState<T> {
    Default(T),
    NeedsValue,
    Value(T),
    Error(String),
}

impl<T> FieldState<T> {
    /// The field's final value, as `validate` computes it.
    pub open spec fn spec_validate(&self, ctx: Seq<char>) -> Result<T, Seq<char>> {
        match self {
            FieldState::NeedsValue => Err(ctx + ": No Value Set"@),
            FieldState::Error(e) => Err(e@),
            FieldState::Default(v) => Ok(*v),
            FieldState::Value(v) => Ok(*v),
        }
    }

    /// Sets the field's value; setting a field twice is an error, and an
    /// earlier error sticks.
    pub fn update(&self, val: T) -> (r: Self)
        ensures
            match self {
                FieldState::NeedsValue => r == FieldState::Value(val),
                FieldState::Default(_) => r == FieldState::Value(val),
                FieldState::Value(_) => r matches FieldState::Error(m) && m@
                    == "Cannot update: value already set"@,
                FieldState::Error(e) => r matches FieldState::Error(m) && m@ == e@,
            },
    {
        match self {
            FieldState::NeedsValue => FieldState::Value(val),
            FieldState::Default(_) => FieldState::Value(val),
            FieldState::Value(_) => FieldState::Error(
                "Cannot update: value already set".to_owned(),
            ),
            FieldState::Error(e) => FieldState::Error(e.clone()),
        }
    }

    /// The field's final value: the default or the set value; a field
    /// that still needs a value, or errored, fails with `ctx` naming it.
    pub fn validate(&self, ctx: &str) -> (r: Result<&T, String>)
        ensures
            match self.spec_validate(ctx@) {
                Ok(v) => r matches Ok(rv) && *rv == v,
                Err(m) => r matches Err(rm) && rm@ == m,
            },
    {
        match self {
            FieldState::NeedsValue => {
                let mut m = ctx.to_owned();
                m.append(": No Value Set");
                Err(m)
            },
            FieldState::Error(e) => Err(e.clone()),
            FieldState::Default(v) => Ok(v),
            FieldState::Value(v) => Ok(v),
        }
    }
}

/// A builder that can be asked for its finished value.
pub trait Buildable {
    type B;

    /// What the finished value would be, or the first field error.
    spec fn spec_build(&self) -> Result<Self::B, Seq<char>>;

    /// The finished value, or the first field error.
    fn build(&self) -> (r: Result<Self::B, String>)
        ensures
            match self.spec_build() {
                Ok(b) => r matches Ok(rb) && rb == b,
                Err(m) => r matches Err(rm) && rm@ == m,
            },
    ;
}

} // verus!
