use vstd::prelude::*;

verus! {

/// Errors raised while validating the attributes of a script-level
/// declaration (`variable`, `tool`, ...), or when the host integration
/// is missing its delegate.
#[derive(Debug)]
pub enum StdlibError {
    InvalidAttribute { attr: String, value: String, reason: String },
    MissingDelegate,
}

/// Mathematical model of a `StdlibError`.
pub enum StdlibErrorView {
    InvalidAttribute { attr: Seq<char>, value: Seq<char>, reason: Seq<char> },
    MissingDelegate,
}

impl View for StdlibError {
    type V = StdlibErrorView;

    open spec fn view(&self) -> StdlibErrorView {
        match self {
            StdlibError::InvalidAttribute { attr, value, reason } => {
                StdlibErrorView::InvalidAttribute {
                    attr: attr@,
                    value: value@,
                    reason: reason@,
                }
            },
            StdlibError::MissingDelegate => StdlibErrorView::MissingDelegate,
        }
    }
}

/// Errors raised while a node or workflow graph runs.
#[derive(Debug)]
pub enum ExecError {
    ActionFailed(String),
    NonZeroExit(i32),
    InvalidReturnType,
    NoNodeWithName(String),
    EmptyGraph,
    NonUtf8Output,
}

pub enum ExecErrorView {
    ActionFailed(Seq<char>),
    NonZeroExit(int),
    InvalidReturnType,
    NoNodeWithName(Seq<char>),
    EmptyGraph,
    NonUtf8Output,
}

impl View for ExecError {
    type V = ExecErrorView;

    open spec fn view(&self) -> ExecErrorView {
        match self {
            ExecError::ActionFailed(s) => ExecErrorView::ActionFailed(s@),
            ExecError::NonZeroExit(c) => ExecErrorView::NonZeroExit(*c as int),
            ExecError::InvalidReturnType => ExecErrorView::InvalidReturnType,
            ExecError::NoNodeWithName(s) => ExecErrorView::NoNodeWithName(s@),
            ExecError::EmptyGraph => ExecErrorView::EmptyGraph,
            ExecError::NonUtf8Output => ExecErrorView::NonUtf8Output,
        }
    }
}

impl ExecError {
    /// Renders the error as the user-facing message text.
    pub fn message(&self) -> (r: String)
        ensures
            match self@ {
                ExecErrorView::ActionFailed(m) => r@ == m,
                ExecErrorView::NonZeroExit(c) => r@ == "action exited with a nonzero status"@,
                ExecErrorView::InvalidReturnType => r@ == "setter must return string or None"@,
                ExecErrorView::NoNodeWithName(n) => r@ == "No node with name: '"@ + n + "'"@,
                ExecErrorView::EmptyGraph => r@ == "Graph contains no nodes"@,
                ExecErrorView::NonUtf8Output => r@ == "captured output is not valid UTF-8"@,
            },
    {
        match self {
            ExecError::ActionFailed(m) => m.clone(),
            ExecError::NonZeroExit(c) => "action exited with a nonzero status".to_owned(),
            ExecError::InvalidReturnType => "setter must return string or None".to_owned(),
            ExecError::NoNodeWithName(n) => {
                let mut m = "No node with name: '".to_owned();
                m.append(n.as_str());
                m.append("'");
                m
            },
            ExecError::EmptyGraph => "Graph contains no nodes".to_owned(),
            ExecError::NonUtf8Output => "captured output is not valid UTF-8".to_owned(),
        }
    }
}

/// Errors raised by the scope-checked read/write paths of the variable
/// registry.
#[derive(Debug)]
pub enum AccessError {
    UnknownVariable(String),
    NotInReadScope { variable: String, reader: String },
    NotInWriteScope { variable: String, writer: String },
    NoValueSet(String),
}

pub enum AccessErrorView {
    UnknownVariable(Seq<char>),
    NotInReadScope { variable: Seq<char>, reader: Seq<char> },
    NotInWriteScope { variable: Seq<char>, writer: Seq<char> },
    NoValueSet(Seq<char>),
}

impl View for AccessError {
    type V = AccessErrorView;

    open spec fn view(&self) -> AccessErrorView {
        match self {
            AccessError::UnknownVariable(s) => AccessErrorView::UnknownVariable(s@),
            AccessError::NotInReadScope { variable, reader } => AccessErrorView::NotInReadScope {
                variable: variable@,
                reader: reader@,
            },
            AccessError::NotInWriteScope { variable, writer } => AccessErrorView::NotInWriteScope {
                variable: variable@,
                writer: writer@,
            },
            AccessError::NoValueSet(s) => AccessErrorView::NoValueSet(s@),
        }
    }
}

impl AccessError {
    /// Renders the error as the user-facing message text.
    pub fn message(&self) -> (r: String)
        ensures
            match self@ {
                AccessErrorView::UnknownVariable(v) => r@ == "Unknown variable with id '"@ + v
                    + "'"@,
                AccessErrorView::NotInReadScope { variable, reader } => r@ == "'"@ + reader
                    + "' not in allowed scopes to read var '"@ + variable + "'"@,
                AccessErrorView::NotInWriteScope { variable, writer } => r@ == "'"@ + writer
                    + "' not in allowed scopes to write var '"@ + variable + "'"@,
                AccessErrorView::NoValueSet(v) => r@ == "No value set for '"@ + v + "'"@,
            },
    {
        match self {
            AccessError::UnknownVariable(v) => {
                let mut m = "Unknown variable with id '".to_owned();
                m.append(v.as_str());
                m.append("'");
                m
            },
            AccessError::NotInReadScope { variable, reader } => {
                let mut m = "'".to_owned();
                m.append(reader.as_str());
                m.append("' not in allowed scopes to read var '");
                m.append(variable.as_str());
                m.append("'");
                m
            },
            AccessError::NotInWriteScope { variable, writer } => {
                let mut m = "'".to_owned();
                m.append(writer.as_str());
                m.append("' not in allowed scopes to write var '");
                m.append(variable.as_str());
                m.append("'");
                m
            },
            AccessError::NoValueSet(v) => {
                let mut m = "No value set for '".to_owned();
                m.append(v.as_str());
                m.append("'");
                m
            },
        }
    }
}

impl StdlibError {
    pub fn new_invalid_attr(attr: &str, reason: &str, value: &str) -> (r: StdlibError)
        ensures
            r@ == (StdlibErrorView::InvalidAttribute {
                attr: attr@,
                value: value@,
                reason: reason@,
            }),
    {
        StdlibError::InvalidAttribute {
            attr: attr.to_owned(),
            value: value.to_owned(),
            reason: reason.to_owned(),
        }
    }

    /// Renders the error as the user-facing message text.
    pub fn message(&self) -> (r: String)
        ensures
            match self@ {
                StdlibErrorView::InvalidAttribute { attr, value, reason } => r@
                    == "Invalid attribute '"@ + attr + "', "@ + reason + " got '"@ + value + "'"@,
                StdlibErrorView::MissingDelegate => r@
                    == "Expected to find a delegate but none found"@,
            },
    {
        match self {
            StdlibError::InvalidAttribute { attr, value, reason } => {
                let mut m = "Invalid attribute '".to_owned();
                m.append(attr.as_str());
                m.append("', ");
                m.append(reason.as_str());
                m.append(" got '");
                m.append(value.as_str());
                m.append("'");
                m
            },
            StdlibError::MissingDelegate => "Expected to find a delegate but none found".to_owned(),
        }
    }
}

} // verus!
