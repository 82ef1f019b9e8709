use vstd::prelude::*;

use crate::script::ScriptValue;

verus! {

/// Errors raised while a `next` stub's arguments are validated.
#[derive(Debug)]
pub enum ArgError {
    NotAString,
    NotAnInt,
    TooManyArguments,
}

impl ArgError {
    /// Renders the error as the user-facing message text.
    pub fn message(&self) -> (r: String)
        ensures
            match self {
                ArgError::NotAString => r@ == "Should be a string type"@,
                ArgError::NotAnInt => r@ == "Should be an int type"@,
                ArgError::TooManyArguments => r@ == "too many arguments"@,
            },
    {
        match self {
            ArgError::NotAString => "Should be a string type".to_owned(),
            ArgError::NotAnInt => "Should be an int type".to_owned(),
            ArgError::TooManyArguments => "too many arguments".to_owned(),
        }
    }
}

/// Declares a string-typed argument slot with a default.
#[derive(Debug)]
pub struct StringArg {
    pub required: bool,
    pub default: String,
}

/// Declares an int-typed argument slot with a default.
#[derive(Debug)]
pub struct IntArg {
    pub required: bool,
    pub default: i64,
}

/// One declared argument slot of a `next` stub.
#[derive(Debug)]
pub enum ArgSpecEntry {
    Str(StringArg),
    Int(IntArg),
}

/// A validated argument value.
#[derive(Debug)]
pub enum StructValue {
    StringValue(String),
    IntValue(i64),
}

/// View of a validated argument value.
pub enum StructValueView {
    StringValue(Seq<char>),
    IntValue(int),
}

impl View for StructValue {
    type V = StructValueView;

    open spec fn view(&self) -> StructValueView {
        match self {
            StructValue::StringValue(s) => StructValueView::StringValue(s@),
            StructValue::IntValue(i) => StructValueView::IntValue(*i as int),
        }
    }
}

/// What validating one string slot yields: the supplied value when it is
/// a string, the default when nothing was supplied, and an error on any
/// other kind.
pub open spec fn spec_string_arg_value(sa: StringArg, value: Option<ScriptValue>) -> Result<
    StructValueView,
    ArgError,
> {
    match value {
        None => Ok(StructValueView::StringValue(sa.default@)),
        Some(v) => match v {
            ScriptValue::Str(s) => Ok(StructValueView::StringValue(s@)),
            _ => Err(ArgError::NotAString),
        },
    }
}

/// What validating one int slot yields, symmetrically.
pub open spec fn spec_int_arg_value(ia: IntArg, value: Option<ScriptValue>) -> Result<
    StructValueView,
    ArgError,
> {
    match value {
        None => Ok(StructValueView::IntValue(ia.default as int)),
        Some(v) => match v {
            ScriptValue::Int(i) => Ok(StructValueView::IntValue(i as int)),
            _ => Err(ArgError::NotAnInt),
        },
    }
}

impl StringArg {
    /// Validates a supplied value against this string slot.
    pub fn struct_value(&self, value: Option<&ScriptValue>) -> (r: Result<StructValue, ArgError>)
        ensures
            match spec_string_arg_value(
                *self,
                match value {
                    Some(v) => Some(*v),
                    None => None,
                },
            ) {
                Ok(sv) => r matches Ok(o) && o@ == sv,
                Err(e) => r matches Err(re) && re == e,
            },
    {
        match value {
            None => Ok(StructValue::StringValue(self.default.clone())),
            Some(v) => match v {
                ScriptValue::Str(s) => Ok(StructValue::StringValue(s.clone())),
                _ => Err(ArgError::NotAString),
            },
        }
    }
}

impl IntArg {
    /// Validates a supplied value against this int slot.
    pub fn struct_value(&self, value: Option<&ScriptValue>) -> (r: Result<StructValue, ArgError>)
        ensures
            match spec_int_arg_value(
                *self,
                match value {
                    Some(v) => Some(*v),
                    None => None,
                },
            ) {
                Ok(sv) => r matches Ok(o) && o@ == sv,
                Err(e) => r matches Err(re) && re == e,
            },
    {
        match value {
            None => Ok(StructValue::IntValue(self.default)),
            Some(v) => match v {
                ScriptValue::Int(i) => Ok(StructValue::IntValue(*i)),
                _ => Err(ArgError::NotAnInt),
            },
        }
    }
}

/// What validating any slot yields.
pub open spec fn spec_arg_entry_value(entry: ArgSpecEntry, value: Option<ScriptValue>) -> Result<
    StructValueView,
    ArgError,
> {
    match entry {
        ArgSpecEntry::Str(sa) => spec_string_arg_value(sa, value),
        ArgSpecEntry::Int(ia) => spec_int_arg_value(ia, value),
    }
}

impl ArgSpecEntry {
    /// Validates a supplied value against this slot.
    pub fn struct_value(&self, value: Option<&ScriptValue>) -> (r: Result<StructValue, ArgError>)
        ensures
            match spec_arg_entry_value(
                *self,
                match value {
                    Some(v) => Some(*v),
                    None => None,
                },
            ) {
                Ok(sv) => r matches Ok(o) && o@ == sv,
                Err(e) => r matches Err(re) && re == e,
            },
    {
        match self {
            ArgSpecEntry::Str(sa) => sa.struct_value(value),
            ArgSpecEntry::Int(ia) => ia.struct_value(value),
        }
    }
}

} // verus!
