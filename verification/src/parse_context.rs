use vstd::prelude::*;

use crate::assoc::{
    assoc_lookup, lemma_assoc_lookup_after_push, lemma_assoc_lookup_after_update,
    lemma_assoc_lookup_none_no_key,
};
use crate::errors::{AccessError, AccessErrorView};
use crate::legacy::{
    spec_freeze_variable, FrozenTool, FrozenVariable, FrozenVariableView, Tool, ToolView, Variable,
    VariableView,
};
use crate::text::{
    first_index_from, last_index_of, lemma_first_index_is, range_contains_char, str_eq,
    str_index_of_from, str_last_index_of,
};
use crate::variable::{spec_realize_entry, strings_view, EnvVars};
use crate::variable_store::VariableStore;

verus! {

/// Errors raised while a script is being parsed into a context.
#[derive(Debug)]
pub enum ParseContextError {
    VariableAlreadyExists(String),
    UnknownVariable(String),
    ToolAlreadyExists(String),
    UnknownTool(String),
    MissingParseContext,
}

pub enum ParseContextErrorView {
    VariableAlreadyExists(Seq<char>),
    UnknownVariable(Seq<char>),
    ToolAlreadyExists(Seq<char>),
    UnknownTool(Seq<char>),
    MissingParseContext,
}

impl View for ParseContextError {
    type V = ParseContextErrorView;

    open spec fn view(&self) -> ParseContextErrorView {
        match self {
            ParseContextError::VariableAlreadyExists(s) => {
                ParseContextErrorView::VariableAlreadyExists(s@)
            },
            ParseContextError::UnknownVariable(s) => ParseContextErrorView::UnknownVariable(s@),
            ParseContextError::ToolAlreadyExists(s) => ParseContextErrorView::ToolAlreadyExists(
                s@,
            ),
            ParseContextError::UnknownTool(s) => ParseContextErrorView::UnknownTool(s@),
            ParseContextError::MissingParseContext => ParseContextErrorView::MissingParseContext,
        }
    }
}

impl ParseContextError {
    /// Renders the error as the user-facing message text.
    pub fn message(&self) -> (r: String)
        ensures
            match self@ {
                ParseContextErrorView::VariableAlreadyExists(n) => r@ == "Variable(name = '"@ + n
                    + "') already exists in this context"@,
                ParseContextErrorView::UnknownVariable(n) => r@ == "Variable(name = '"@ + n
                    + "') does not exists in this context"@,
                ParseContextErrorView::ToolAlreadyExists(n) => r@ == "Tool(name = '"@ + n
                    + "') already exists in this context"@,
                ParseContextErrorView::UnknownTool(n) => r@ == "Tool(name = '"@ + n
                    + "') does not exists in this context"@,
                ParseContextErrorView::MissingParseContext => r@
                    == "Missing ParseContext from evaluator"@,
            },
    {
        match self {
            ParseContextError::VariableAlreadyExists(n) => {
                let mut m = "Variable(name = '".to_owned();
                m.append(n.as_str());
                m.append("') already exists in this context");
                m
            },
            ParseContextError::UnknownVariable(n) => {
                let mut m = "Variable(name = '".to_owned();
                m.append(n.as_str());
                m.append("') does not exists in this context");
                m
            },
            ParseContextError::ToolAlreadyExists(n) => {
                let mut m = "Tool(name = '".to_owned();
                m.append(n.as_str());
                m.append("') already exists in this context");
                m
            },
            ParseContextError::UnknownTool(n) => {
                let mut m = "Tool(name = '".to_owned();
                m.append(n.as_str());
                m.append("') does not exists in this context");
                m
            },
            ParseContextError::MissingParseContext => {
                "Missing ParseContext from evaluator".to_owned()
            },
        }
    }
}

/// Errors raised when a variable is accessed through the context by its
/// script-visible name.
#[derive(Debug)]
pub enum VarAccessError {
    Unknown(String),
    Access(AccessError),
}

pub enum VarAccessFailure {
    Unknown(Seq<char>),
    Access(AccessErrorView),
}

impl View for VarAccessError {
    type V = VarAccessFailure;

    open spec fn view(&self) -> VarAccessFailure {
        match self {
            VarAccessError::Unknown(s) => VarAccessFailure::Unknown(s@),
            VarAccessError::Access(e) => VarAccessFailure::Access(e@),
        }
    }
}

impl VarAccessError {
    /// Renders the error as the user-facing message text.
    pub fn message(&self) -> (r: String)
        ensures
            match self@ {
                VarAccessFailure::Unknown(n) => r@ == "Variable(name = '"@ + n
                    + "') does not exists in this context"@,
                VarAccessFailure::Access(a) => true,
            },
    {
        match self {
            VarAccessError::Unknown(n) => {
                let mut m = "Variable(name = '".to_owned();
                m.append(n.as_str());
                m.append("') does not exists in this context");
                m
            },
            VarAccessError::Access(a) => a.message(),
        }
    }
}

/// Errors raised while a string is interpolated.
#[derive(Debug)]
pub enum InterpolateError {
    UnknownFunction(String),
    Variable(VarAccessError),
}

/// Spec-level shape of an interpolation failure.
pub enum InterpFailure {
    UnknownFunction(Seq<char>),
    Variable(VarAccessFailure),
}

impl View for InterpolateError {
    type V = InterpFailure;

    open spec fn view(&self) -> InterpFailure {
        match self {
            InterpolateError::UnknownFunction(s) => InterpFailure::UnknownFunction(s@),
            InterpolateError::Variable(e) => InterpFailure::Variable(e@),
        }
    }
}

impl InterpolateError {
    /// Renders the error as the user-facing message text.
    pub fn message(&self) -> (r: String)
        ensures
            match self@ {
                InterpFailure::UnknownFunction(f) => r@ == "Unknown function '"@ + f
                    + "' in string interpolation"@,
                InterpFailure::Variable(e) => true,
            },
    {
        match self {
            InterpolateError::UnknownFunction(f) => {
                let mut m = "Unknown function '".to_owned();
                m.append(f.as_str());
                m.append("' in string interpolation");
                m
            },
            InterpolateError::Variable(e) => e.message(),
        }
    }
}

/// Interpolates `{variable(name)}` references in a string for a given
/// reader.
pub trait StringInterpolator {
    /// The interpolation this implementation performs.
    spec fn spec_interpolate(&self, s: Seq<char>, reader: Seq<char>) -> Result<
        Seq<char>,
        InterpFailure,
    >;

    /// Interpolates `s` for `reader`.
    fn interpolate(&self, s: &str, reader: &str) -> (r: Result<String, InterpolateError>)
        ensures
            match r {
                Ok(t) => self.spec_interpolate(s@, reader@) == Ok::<_, InterpFailure>(t@),
                Err(e) => self.spec_interpolate(s@, reader@) == Err::<Seq<char>, _>(e@),
            },
    ;
}

/// An interpolator that hands every string back unchanged.
#[derive(Debug)]
pub struct NoStringInterp {}

impl StringInterpolator for NoStringInterp {
    open spec fn spec_interpolate(&self, s: Seq<char>, reader: Seq<char>) -> Result<
        Seq<char>,
        InterpFailure,
    > {
        Ok(s)
    }

    fn interpolate(&self, s: &str, reader: &str) -> (r: Result<String, InterpolateError>)
        ensures
            match r {
                Ok(t) => self.spec_interpolate(s@, reader@) == Ok::<_, InterpFailure>(t@),
                Err(e) => self.spec_interpolate(s@, reader@) == Err::<Seq<char>, _>(e@),
            },
    {
        Ok(s.to_owned())
    }
}

/// An interpolator that answers its own content for every input.
impl StringInterpolator for String {
    open spec fn spec_interpolate(&self, s: Seq<char>, reader: Seq<char>) -> Result<
        Seq<char>,
        InterpFailure,
    > {
        Ok(self@)
    }

    fn interpolate(&self, s: &str, reader: &str) -> (r: Result<String, InterpolateError>)
        ensures
            match r {
                Ok(t) => self.spec_interpolate(s@, reader@) == Ok::<_, InterpFailure>(t@),
                Err(e) => self.spec_interpolate(s@, reader@) == Err::<Seq<char>, _>(e@),
            },
    {
        Ok(self.clone())
    }
}

// ---------------------------------------------------------------------------
// The interpolation grammar
// ---------------------------------------------------------------------------
/// A `{func(arg)}` reference starting at `i`: both segments nonempty and
/// free of spaces, the name running to the nearest `(` and the argument
/// to the nearest `)`. Yields the two segments and the index just past
/// the closing brace.
pub open spec fn spec_match_at(s: Seq<char>, i: int) -> Option<(Seq<char>, Seq<char>, int)> {
    if !(0 <= i < s.len() && s[i] == '{') {
        None
    } else {
        match first_index_from(s, i + 1, '(') {
            None => None,
            Some(p) => {
                if p == i + 1 || s.subrange(i + 1, p).contains(' ') {
                    None
                } else {
                    match first_index_from(s, p + 1, ')') {
                        None => None,
                        Some(q) => {
                            if q == p + 1 || s.subrange(p + 1, q).contains(' ') {
                                None
                            } else if q + 1 < s.len() && s[q + 1] == '}' {
                                Some((s.subrange(i + 1, p), s.subrange(p + 1, q), q + 2))
                            } else {
                                None
                            }
                        },
                    }
                }
            },
        }
    }
}

pub proof fn lemma_match_at_bounds(s: Seq<char>, i: int)
    ensures
        spec_match_at(s, i) matches Some(m) ==> i + 6 <= m.2 <= s.len(),
{
    if 0 <= i < s.len() && s[i] == '{' {
        crate::text::lemma_first_index_from_props(s, i + 1, '(');
        match first_index_from(s, i + 1, '(') {
            None => {},
            Some(p) => {
                crate::text::lemma_first_index_from_props(s, p + 1, ')');
            },
        }
    }
}

/// What a scope-checked read of `name` for `reader` yields over the
/// context's variable table.
pub open spec fn spec_read_var(
    vars: Seq<(Seq<char>, VariableView)>,
    name: Seq<char>,
    reader: Seq<char>,
) -> Result<Seq<char>, VarAccessFailure> {
    match assoc_lookup(vars, name) {
        None => Err(VarAccessFailure::Unknown(name)),
        Some(v) => {
            if !v.entry.readers.permits(reader) {
                Err(
                    VarAccessFailure::Access(
                        AccessErrorView::NotInReadScope { variable: name, reader },
                    ),
                )
            } else {
                match v.entry.value_ctx {
                    Some(c) => Ok(c.value),
                    None => Err(VarAccessFailure::Access(AccessErrorView::NoValueSet(name))),
                }
            }
        },
    }
}

/// The interpolation of `s` from position `i` on: plain characters are
/// copied; a `{variable(name)}` reference becomes the variable's value,
/// read under `reader`; any other recognized `{func(arg)}` reference is
/// an error.
pub open spec fn spec_interp_from(
    vars: Seq<(Seq<char>, VariableView)>,
    s: Seq<char>,
    reader: Seq<char>,
    i: int,
) -> Result<Seq<char>, InterpFailure>
    decreases s.len() - i,
        when 0 <= i
{
    if i >= s.len() {
        Ok(Seq::empty())
    } else {
        match spec_match_at(s, i) {
            None => match spec_interp_from(vars, s, reader, i + 1) {
                Ok(rest) => Ok(seq![s[i]] + rest),
                Err(e) => Err(e),
            },
            Some(m) => {
                proof {
                    lemma_match_at_bounds(s, i);
                }
                if m.0 != "variable"@ {
                    Err(InterpFailure::UnknownFunction(m.0))
                } else {
                    match spec_read_var(vars, m.1, reader) {
                        Err(e) => Err(InterpFailure::Variable(e)),
                        Ok(val) => match spec_interp_from(vars, s, reader, m.2) {
                            Ok(rest) => Ok(val + rest),
                            Err(e) => Err(e),
                        },
                    }
                }
            },
        }
    }
}

/// Interpolation identity law: text that holds no `{` from position
/// `i` on is returned unchanged, whatever the variable table and the
/// reader.
pub proof fn lemma_interpolate_plain(
    vars: Seq<(Seq<char>, VariableView)>,
    s: Seq<char>,
    reader: Seq<char>,
    i: int,
)
    requires
        0 <= i <= s.len(),
        forall|j: int| i <= j < s.len() ==> s[j] != '{',
    ensures
        spec_interp_from(vars, s, reader, i) == Ok::<_, InterpFailure>(s.skip(i)),
    decreases s.len() - i,
{
    if i >= s.len() {
        assert(s.skip(i) =~= Seq::<char>::empty());
    } else {
        lemma_interpolate_plain(vars, s, reader, i + 1);
        assert(seq![s[i]] + s.skip(i + 1) =~= s.skip(i));
    }
}

/// A run of characters without `{` is copied through: interpolating
/// from `j` is the run `s[j..i]` followed by whatever interpolating
/// from `i` yields, errors passing through untouched.
proof fn lemma_interpolate_copies_plain(
    vars: Seq<(Seq<char>, VariableView)>,
    s: Seq<char>,
    reader: Seq<char>,
    j: int,
    i: int,
)
    requires
        0 <= j <= i <= s.len(),
        forall|k: int| j <= k < i ==> s[k] != '{',
    ensures
        spec_interp_from(vars, s, reader, j) == match spec_interp_from(vars, s, reader, i) {
            Ok(rest) => Ok::<_, InterpFailure>(s.subrange(j, i) + rest),
            Err(e) => Err(e),
        },
    decreases i - j,
{
    if j == i {
        match spec_interp_from(vars, s, reader, i) {
            Ok(rest) => {
                assert(s.subrange(i, i) + rest =~= rest);
            },
            Err(e) => {},
        }
    } else {
        lemma_interpolate_copies_plain(vars, s, reader, j + 1, i);
        match spec_interp_from(vars, s, reader, i) {
            Ok(rest) => {
                assert(seq![s[j]] + (s.subrange(j + 1, i) + rest) =~= s.subrange(j, i) + rest);
            },
            Err(e) => {},
        }
    }
}

/// A well-formed reference name: nonempty, without spaces or the
/// grammar's own delimiters.
pub open spec fn plain_name(n: Seq<char>) -> bool {
    n.len() > 0 && !n.contains(' ') && !n.contains('(') && !n.contains(')')
}

/// The grammar finds exactly the planted reference: in
/// `prefix + "{variable(" + n + ")}" + suffix` with a `{`-free prefix,
/// the match at the prefix's end is the function name `variable`, the
/// argument `n`, and the position just past the closing brace.
proof fn lemma_match_at_reference(prefix: Seq<char>, n: Seq<char>, suffix: Seq<char>)
    requires
        plain_name(n),
    ensures
        ({
            let s = prefix + "{variable("@ + n + ")}"@ + suffix;
            let i = prefix.len() as int;
            spec_match_at(s, i) == Some(("variable"@, n, i + 12 + n.len()))
        }),
{
    reveal_strlit("{variable(");
    reveal_strlit("variable");
    reveal_strlit(")}");
    let s = prefix + "{variable("@ + n + ")}"@ + suffix;
    let i = prefix.len() as int;
    let p = i + 9;
    let q = i + 10 + n.len() as int;
    assert(s.len() == prefix.len() + 12 + n.len() + suffix.len());
    assert(s[i] == '{');
    assert forall|j: int| i + 1 <= j < p implies s[j] != '(' by {
        assert(s[j] == "{variable("@[j - i]);
    }
    assert(s[p] == '(');
    lemma_first_index_is(s, i + 1, '(', p);
    assert(s.subrange(i + 1, p) =~= "variable"@);
    assert(!"variable"@.contains(' ')) by {
        assert forall|j: int| 0 <= j < "variable"@.len() implies "variable"@[j] != ' ' by {}
    }
    assert forall|j: int| p + 1 <= j < q implies s[j] != ')' by {
        assert(s[j] == n[j - (i + 10)]);
        if s[j] == ')' {
            assert(n.contains(')'));
        }
    }
    assert(s[q] == ")}"@[0]);
    lemma_first_index_is(s, p + 1, ')', q);
    assert(s.subrange(p + 1, q) =~= n);
    assert(q + 1 < s.len() && s[q + 1] == ")}"@[1]);
}

/// Reference law: interpolating text that holds exactly one
/// `{variable(n)}` reference, with no other `{` anywhere, substitutes
/// the variable's value read for `reader` — so the substitution
/// happens exactly when the readers scope permits the reader and a
/// value is set, and otherwise the result is the exact scope,
/// no-value or unknown-variable error for `n`.
pub proof fn lemma_interpolate_reference(
    vars: Seq<(Seq<char>, VariableView)>,
    prefix: Seq<char>,
    n: Seq<char>,
    suffix: Seq<char>,
    reader: Seq<char>,
)
    requires
        plain_name(n),
        !prefix.contains('{'),
        !suffix.contains('{'),
    ensures
        ({
            let s = prefix + "{variable("@ + n + ")}"@ + suffix;
            spec_interp_from(vars, s, reader, 0) == match spec_read_var(vars, n, reader) {
                Ok(v) => Ok::<_, InterpFailure>(prefix + v + suffix),
                Err(e) => Err::<Seq<char>, _>(InterpFailure::Variable(e)),
            }
        }),
{
    reveal_strlit("{variable(");
    reveal_strlit("variable");
    reveal_strlit(")}");
    let s = prefix + "{variable("@ + n + ")}"@ + suffix;
    let i = prefix.len() as int;
    let end = i + 12 + n.len() as int;
    lemma_match_at_reference(prefix, n, suffix);
    assert forall|j: int| 0 <= j < i implies s[j] != '{' by {
        assert(s[j] == prefix[j]);
        if s[j] == '{' {
            assert(prefix.contains('{'));
        }
    }
    assert forall|j: int| end <= j < s.len() implies s[j] != '{' by {
        assert(s[j] == suffix[j - end]);
        if s[j] == '{' {
            assert(suffix.contains('{'));
        }
    }
    lemma_interpolate_plain(vars, s, reader, end);
    assert(s.skip(end) =~= suffix);
    assert(s.subrange(0, i) =~= prefix);
    match spec_read_var(vars, n, reader) {
        Ok(v) => {
            assert(spec_interp_from(vars, s, reader, i) == Ok::<_, InterpFailure>(v + suffix));
            lemma_interpolate_copies_plain(vars, s, reader, 0, i);
            assert(prefix + (v + suffix) =~= prefix + v + suffix);
        },
        Err(e) => {
            lemma_interpolate_copies_plain(vars, s, reader, 0, i);
        },
    }
}

/// Finds a `{func(arg)}` reference at `i`, as executable code.
fn match_at(s: &str, i: usize) -> (r: Option<(String, String, usize)>)
    requires
        i < s@.len(),
    ensures
        match r {
            Some(m) => spec_match_at(s@, i as int) == Some((m.0@, m.1@, m.2 as int)),
            None => spec_match_at(s@, i as int) is None,
        },
{
    let n = s.unicode_len();
    if s.get_char(i) != '{' {
        return None;
    }
    let p = match str_index_of_from(s, i + 1, '(') {
        Some(p) => p,
        None => {
            return None;
        },
    };
    if p == i + 1 || range_contains_char(s, i + 1, p, ' ') {
        return None;
    }
    let q = match str_index_of_from(s, p + 1, ')') {
        Some(q) => q,
        None => {
            return None;
        },
    };
    if q == p + 1 || range_contains_char(s, p + 1, q, ' ') {
        return None;
    }
    if q + 1 < n && s.get_char(q + 1) == '}' {
        let func = s.substring_char(i + 1, p).to_owned();
        let arg = s.substring_char(p + 1, q).to_owned();
        Some((func, arg, q + 2))
    } else {
        None
    }
}

/// The directory that holds the file at `path`: everything before the
/// final separator.
pub open spec fn spec_parent_dir(path: Seq<char>) -> Seq<char> {
    match last_index_of(path, '/') {
        None => Seq::empty(),
        Some(i) => {
            if i == 0 {
                "/"@
            } else {
                path.take(i)
            }
        },
    }
}

// ---------------------------------------------------------------------------
// ParseContext
// ---------------------------------------------------------------------------
/// What the parse of one workflow script builds up: the named variables
/// and tools it declares, the path of the script file, and the live
/// variable registry.
pub struct ParseContext {
    pub vars: Vec<Variable>,
    pub tools: Vec<Tool>,
    pub workflow_file: String,
    pub variable_store: VariableStore,
}

/// The context's variable table, keyed by script-visible name.
pub open spec fn vars_assoc(vars: Seq<Variable>) -> Seq<(Seq<char>, VariableView)> {
    vars.map_values(|v: Variable| (v.name@, v@))
}

/// The context's tool table, keyed by tool name.
pub open spec fn tools_assoc(tools: Seq<Tool>) -> Seq<(Seq<char>, ToolView)> {
    tools.map_values(|t: Tool| (t.name@, t@))
}

/// A detached, point-in-time copy of every declared variable and tool.
#[derive(Debug)]
pub struct ParseContextSnapshot {
    pub variables: Vec<FrozenVariable>,
    pub tools: Vec<FrozenTool>,
}

/// What the snapshot's variable list holds: each variable frozen, in
/// declaration order.
pub open spec fn spec_snapshot_vars(vars: Seq<VariableView>) -> Seq<FrozenVariableView> {
    vars.map_values(|v: VariableView| spec_freeze_variable(v))
}

/// Snapshot determinism: the frozen variable list is a function of the
/// context's variable table alone, so two snapshots taken with no
/// mutation in between are equal.
pub proof fn lemma_snapshot_idempotent(
    vars: Seq<VariableView>,
    s1: Seq<FrozenVariableView>,
    s2: Seq<FrozenVariableView>,
)
    requires
        s1 == spec_snapshot_vars(vars),
        s2 == spec_snapshot_vars(vars),
    ensures
        s1 == s2,
{
}

impl ParseContext {
    /// Names are unique in both tables.
    pub open spec fn wf(&self) -> bool {
        &&& forall|i: int, j: int|
            0 <= i < j < self.vars@.len() ==> self.vars@[i].name@ != self.vars@[j].name@
        &&& forall|i: int, j: int|
            0 <= i < j < self.tools@.len() ==> self.tools@[i].name@ != self.tools@[j].name@
    }

    pub fn new(workflow_file: &str) -> (r: ParseContext)
        ensures
            r.wf(),
            r.vars@.len() == 0,
            r.tools@.len() == 0,
            r.workflow_file@ == workflow_file@,
            r.variable_store@.len() == 0,
            r.variable_store.wf(),
    {
        ParseContext {
            vars: Vec::new(),
            tools: Vec::new(),
            workflow_file: workflow_file.to_owned(),
            variable_store: VariableStore::new(),
        }
    }

    pub fn workflow_file(&self) -> (r: &str)
        ensures
            r@ == self.workflow_file@,
    {
        self.workflow_file.as_str()
    }

    pub fn variable_store(&self) -> (r: &VariableStore)
        ensures
            r@ == self.variable_store@,
    {
        &self.variable_store
    }

    /// The directory of the workflow file; paths in the script are
    /// resolved relative to it.
    pub fn workflow_dir(&self) -> (r: String)
        ensures
            r@ == spec_parent_dir(self.workflow_file@),
    {
        match str_last_index_of(self.workflow_file.as_str(), '/') {
            None => String::new(),
            Some(i) => {
                if i == 0 {
                    "/".to_owned()
                } else {
                    self.workflow_file.as_str().substring_char(0, i).to_owned()
                }
            },
        }
    }

    /// Index of the variable bound under `name`, if any.
    fn var_index_of(&self, name: &str) -> (r: Option<usize>)
        ensures
            match r {
                Some(i) => i < self.vars@.len() && self.vars@[i as int].name@ == name@ && (
                forall|j: int| 0 <= j < i ==> self.vars@[j].name@ != name@) && assoc_lookup(
                    vars_assoc(self.vars@),
                    name@,
                ) == Some(self.vars@[i as int]@),
                None => assoc_lookup(vars_assoc(self.vars@), name@) is None,
            },
    {
        let ghost va = vars_assoc(self.vars@);
        let n = self.vars.len();
        let mut i: usize = 0;
        assert(va.skip(0) =~= va);
        #[verifier::loop_isolation(false)]
        while i < n
            invariant
                0 <= i <= n,
                n == self.vars@.len(),
                va == vars_assoc(self.vars@),
                forall|j: int| 0 <= j < i ==> self.vars@[j].name@ != name@,
                assoc_lookup(va, name@) == assoc_lookup(va.skip(i as int), name@),
            decreases n - i,
        {
            let ghost tail = va.skip(i as int);
            assert(tail[0] == (self.vars@[i as int].name@, self.vars@[i as int]@));
            if str_eq(self.vars[i].name.as_str(), name) {
                return Some(i);
            }
            assert(tail.drop_first() =~= va.skip(i as int + 1));
            i = i + 1;
        }
        assert(va.skip(n as int) =~= Seq::<(Seq<char>, VariableView)>::empty());
        None
    }

    /// Index of the tool bound under `name`, if any.
    fn tool_index_of(&self, name: &str) -> (r: Option<usize>)
        ensures
            match r {
                Some(i) => i < self.tools@.len() && self.tools@[i as int].name@ == name@ && (
                forall|j: int| 0 <= j < i ==> self.tools@[j].name@ != name@) && assoc_lookup(
                    tools_assoc(self.tools@),
                    name@,
                ) == Some(self.tools@[i as int]@),
                None => assoc_lookup(tools_assoc(self.tools@), name@) is None,
            },
    {
        let ghost ta = tools_assoc(self.tools@);
        let n = self.tools.len();
        let mut i: usize = 0;
        assert(ta.skip(0) =~= ta);
        #[verifier::loop_isolation(false)]
        while i < n
            invariant
                0 <= i <= n,
                n == self.tools@.len(),
                ta == tools_assoc(self.tools@),
                forall|j: int| 0 <= j < i ==> self.tools@[j].name@ != name@,
                assoc_lookup(ta, name@) == assoc_lookup(ta.skip(i as int), name@),
            decreases n - i,
        {
            let ghost tail = ta.skip(i as int);
            assert(tail[0] == (self.tools@[i as int].name@, self.tools@[i as int]@));
            if str_eq(self.tools[i].name.as_str(), name) {
                return Some(i);
            }
            assert(tail.drop_first() =~= ta.skip(i as int + 1));
            i = i + 1;
        }
        assert(ta.skip(n as int) =~= Seq::<(Seq<char>, ToolView)>::empty());
        None
    }

    /// Adds a variable under its declared name; a second variable under
    /// the same name in one script is rejected.
    pub fn add_variable(&mut self, var: Variable) -> (r: Result<(), ParseContextError>)
        requires
            old(self).wf(),
        ensures
            final(self).wf(),
            final(self).tools@ == old(self).tools@,
            final(self).workflow_file@ == old(self).workflow_file@,
            final(self).variable_store@ == old(self).variable_store@,
            match assoc_lookup(vars_assoc(old(self).vars@), var@.name) {
                Some(existing) => r matches Err(e) && e@
                    == ParseContextErrorView::VariableAlreadyExists(var@.name) && final(self).vars@
                    == old(self).vars@,
                None => r is Ok && assoc_lookup(vars_assoc(final(self).vars@), var@.name) == Some(
                    var@,
                ) && (forall|k: Seq<char>|
                    k != var@.name ==> assoc_lookup(vars_assoc(final(self).vars@), k)
                        == assoc_lookup(vars_assoc(old(self).vars@), k)) && final(self).vars@.len()
                    == old(self).vars@.len() + 1,
            },
    {
        match self.var_index_of(var.name.as_str()) {
            Some(i) => Err(ParseContextError::VariableAlreadyExists(var.name.clone())),
            None => {
                let ghost va = vars_assoc(self.vars@);
                proof {
                    lemma_assoc_lookup_none_no_key(va, var.name@);
                    lemma_assoc_lookup_after_push(va, var.name@, var@);
                }
                proof {
                    assert forall|j: int| 0 <= j < old(self).vars@.len() implies old(
                        self,
                    ).vars@[j].name@ != var.name@ by {
                        assert(va[j] == (old(self).vars@[j].name@, old(self).vars@[j]@));
                    }
                }
                self.vars.push(var);
                assert(vars_assoc(self.vars@) =~= va.push(
                    (self.vars@[self.vars@.len() - 1].name@, self.vars@[self.vars@.len() - 1]@),
                ));
                Ok(())
            },
        }
    }

    /// Adds a tool under its name; a second tool under the same name is
    /// rejected.
    pub fn add_tool(&mut self, tool: Tool) -> (r: Result<(), ParseContextError>)
        requires
            old(self).wf(),
        ensures
            final(self).wf(),
            final(self).vars@ == old(self).vars@,
            final(self).workflow_file@ == old(self).workflow_file@,
            final(self).variable_store@ == old(self).variable_store@,
            match assoc_lookup(tools_assoc(old(self).tools@), tool@.name) {
                Some(existing) => r matches Err(e) && e@ == ParseContextErrorView::ToolAlreadyExists(
                    tool@.name,
                ) && final(self).tools@ == old(self).tools@,
                None => r is Ok && assoc_lookup(tools_assoc(final(self).tools@), tool@.name)
                    == Some(tool@) && (forall|k: Seq<char>|
                    k != tool@.name ==> assoc_lookup(tools_assoc(final(self).tools@), k)
                        == assoc_lookup(tools_assoc(old(self).tools@), k))
                    && final(self).tools@.len() == old(self).tools@.len() + 1,
            },
    {
        match self.tool_index_of(tool.name.as_str()) {
            Some(i) => Err(ParseContextError::ToolAlreadyExists(tool.name.clone())),
            None => {
                let ghost ta = tools_assoc(self.tools@);
                proof {
                    lemma_assoc_lookup_none_no_key(ta, tool.name@);
                    lemma_assoc_lookup_after_push(ta, tool.name@, tool@);
                }
                proof {
                    assert forall|j: int| 0 <= j < old(self).tools@.len() implies old(
                        self,
                    ).tools@[j].name@ != tool.name@ by {
                        assert(ta[j] == (old(self).tools@[j].name@, old(self).tools@[j]@));
                    }
                }
                self.tools.push(tool);
                assert(tools_assoc(self.tools@) =~= ta.push(
                    (
                        self.tools@[self.tools@.len() - 1].name@,
                        self.tools@[self.tools@.len() - 1]@,
                    ),
                ));
                Ok(())
            },
        }
    }

    /// Borrowed access to the variable bound under `name`.
    pub fn with_variable(&self, name: &str) -> (r: Result<&Variable, ParseContextError>)
        ensures
            match assoc_lookup(vars_assoc(self.vars@), name@) {
                Some(v) => r matches Ok(rv) && rv@ == v,
                None => r matches Err(e) && e@ == ParseContextErrorView::UnknownVariable(name@),
            },
    {
        match self.var_index_of(name) {
            Some(i) => Ok(&self.vars[i]),
            None => Err(ParseContextError::UnknownVariable(name.to_owned())),
        }
    }

    /// Borrowed access to the tool bound under `name`.
    pub fn with_tool(&self, name: &str) -> (r: Result<&Tool, ParseContextError>)
        ensures
            match assoc_lookup(tools_assoc(self.tools@), name@) {
                Some(t) => r matches Ok(rt) && rt@ == t,
                None => r matches Err(e) && e@ == ParseContextErrorView::UnknownTool(name@),
            },
    {
        match self.tool_index_of(name) {
            Some(i) => Ok(&self.tools[i]),
            None => Err(ParseContextError::UnknownTool(name.to_owned())),
        }
    }

    /// Scope-checked read of the variable bound under `name`.
    pub fn read_variable(&self, name: &str, reader: &str) -> (r: Result<String, VarAccessError>)
        ensures
            match spec_read_var(vars_assoc(self.vars@), name@, reader@) {
                Ok(v) => r matches Ok(s) && s@ == v,
                Err(e) => r matches Err(re) && re@ == e,
            },
    {
        match self.var_index_of(name) {
            None => Err(VarAccessError::Unknown(name.to_owned())),
            Some(i) => match self.vars[i].read_value(reader) {
                Ok(v) => Ok(v),
                Err(e) => Err(VarAccessError::Access(e)),
            },
        }
    }

    /// Scope-checked write to the variable bound under `name`.
    pub fn write_variable(&mut self, name: &str, value: &str, writer: &str) -> (r: Result<
        (),
        VarAccessError,
    >)
        requires
            old(self).wf(),
        ensures
            final(self).wf(),
            final(self).tools@ == old(self).tools@,
            final(self).workflow_file@ == old(self).workflow_file@,
            final(self).variable_store@ == old(self).variable_store@,
            match assoc_lookup(vars_assoc(old(self).vars@), name@) {
                None => r matches Err(e) && e@ == VarAccessFailure::Unknown(name@)
                    && final(self).vars@ == old(self).vars@,
                Some(v) => {
                    if !v.entry.writers.permits(writer@) {
                        r matches Err(e) && e@ == (VarAccessFailure::Access(
                            AccessErrorView::NotInWriteScope { variable: name@, writer: writer@ },
                        )) && final(self).vars@ == old(self).vars@
                    } else {
                        r is Ok && assoc_lookup(vars_assoc(final(self).vars@), name@) == Some(
                            VariableView {
                                entry: crate::variable::VariableEntryView {
                                    value_ctx: Some(
                                        crate::variable::ValueContextView {
                                            value: value@,
                                            updated_by: crate::variable::ValueUpdatedByView::Action(
                                                writer@,
                                            ),
                                        },
                                    ),
                                    ..v.entry
                                },
                                ..v
                            },
                        ) && (forall|k: Seq<char>|
                            k != name@ ==> assoc_lookup(vars_assoc(final(self).vars@), k)
                                == assoc_lookup(vars_assoc(old(self).vars@), k))
                    }
                },
            },
    {
        match self.var_index_of(name) {
            None => Err(VarAccessError::Unknown(name.to_owned())),
            Some(i) => {
                if !self.vars[i].entry.writers.permits(writer) {
                    return Err(
                        VarAccessError::Access(
                            AccessError::NotInWriteScope {
                                variable: name.to_owned(),
                                writer: writer.to_owned(),
                            },
                        ),
                    );
                }
                let ghost va = vars_assoc(self.vars@);
                let mut v = self.vars[i].duplicate();
                let res = v.write_value(value, writer);
                assert(res is Ok);
                proof {
                    lemma_assoc_lookup_after_update(va, i as int, v@);
                }
                self.vars.set(i, v);
                assert(vars_assoc(self.vars@) =~= va.update(i as int, (va[i as int].0, self.vars@[
                    i as int]@)));
                Ok(())
            },
        }
    }

    /// Realizes every declared variable, in declaration order: command
    /// line first, environment second, defaults untouched otherwise.
    pub fn realize_variables(&mut self, workflow_args: &Vec<String>, env: &EnvVars)
        ensures
            final(self).tools@ == old(self).tools@,
            final(self).workflow_file@ == old(self).workflow_file@,
            final(self).variable_store@ == old(self).variable_store@,
            final(self).vars@.len() == old(self).vars@.len(),
            forall|j: int|
                0 <= j < old(self).vars@.len() ==> final(self).vars@[j]@ == (VariableView {
                    name: old(self).vars@[j]@.name,
                    entry: spec_realize_entry(
                        old(self).vars@[j]@.entry,
                        strings_view(workflow_args@),
                        env@,
                    ),
                }),
    {
        let n = self.vars.len();
        let ghost orig = self.vars@;
        let mut i: usize = 0;
        #[verifier::loop_isolation(false)]
        while i < n
            invariant
                0 <= i <= n,
                n == self.vars@.len(),
                self.vars@.len() == orig.len(),
                self.tools@ == old(self).tools@,
                self.workflow_file@ == old(self).workflow_file@,
                self.variable_store@ == old(self).variable_store@,
                forall|j: int| i <= j < n ==> self.vars@[j] == orig[j],
                forall|j: int|
                    0 <= j < i ==> self.vars@[j]@ == (VariableView {
                        name: orig[j]@.name,
                        entry: spec_realize_entry(
                            orig[j]@.entry,
                            strings_view(workflow_args@),
                            env@,
                        ),
                    }),
            decreases n - i,
        {
            let mut v = self.vars[i].duplicate();
            v.realize(workflow_args, env);
            self.vars.set(i, v);
            i = i + 1;
        }
    }

    /// Realizes the declared variables from the command line and the
    /// environment; called once, after parsing completes and before the
    /// graph runs.
    pub fn update_from_environment(&mut self, workflow_args: &Vec<String>, env: &EnvVars)
        ensures
            final(self).tools@ == old(self).tools@,
            final(self).workflow_file@ == old(self).workflow_file@,
            final(self).variable_store@ == old(self).variable_store@,
            final(self).vars@.len() == old(self).vars@.len(),
            forall|j: int|
                0 <= j < old(self).vars@.len() ==> final(self).vars@[j]@ == (VariableView {
                    name: old(self).vars@[j]@.name,
                    entry: spec_realize_entry(
                        old(self).vars@[j]@.entry,
                        strings_view(workflow_args@),
                        env@,
                    ),
                }),
    {
        self.realize_variables(workflow_args, env);
    }

    /// Produces detached copies of every variable and tool: the snapshot
    /// shares nothing with the live context, so later mutation cannot
    /// change it.
    pub fn snapshot(&self) -> (r: ParseContextSnapshot)
        ensures
            r.variables@.map_values(|f: FrozenVariable| f@) =~= spec_snapshot_vars(
                self.vars@.map_values(|v: Variable| v@),
            ),
            r.tools@.len() == self.tools@.len(),
            forall|j: int|
                0 <= j < self.tools@.len() ==> {
                    &&& r.tools@[j]@.name == self.tools@[j]@.name
                    &&& r.tools@[j]@.builtin == self.tools@[j]@.builtin
                    &&& r.tools@[j]@.path == self.tools@[j]@.path
                },
    {
        let mut variables: Vec<FrozenVariable> = Vec::new();
        let nv = self.vars.len();
        let mut i: usize = 0;
        #[verifier::loop_isolation(false)]
        while i < nv
            invariant
                0 <= i <= nv,
                nv == self.vars@.len(),
                variables@.len() == i,
                forall|j: int|
                    0 <= j < i ==> variables@[j]@ == spec_freeze_variable(self.vars@[j]@),
            decreases nv - i,
        {
            variables.push(self.vars[i].freeze());
            i = i + 1;
        }
        let mut tools: Vec<FrozenTool> = Vec::new();
        let nt = self.tools.len();
        let mut k: usize = 0;
        #[verifier::loop_isolation(false)]
        while k < nt
            invariant
                0 <= k <= nt,
                nt == self.tools@.len(),
                tools@.len() == k,
                forall|j: int|
                    0 <= j < k ==> {
                        &&& tools@[j]@.name == self.tools@[j]@.name
                        &&& tools@[j]@.builtin == self.tools@[j]@.builtin
                        &&& tools@[j]@.path == self.tools@[j]@.path
                    },
            decreases nt - k,
        {
            tools.push(self.tools[k].freeze(self));
            k = k + 1;
        }
        let r = ParseContextSnapshot { variables, tools };
        assert(r.variables@.map_values(|f: FrozenVariable| f@) =~= spec_snapshot_vars(
            self.vars@.map_values(|v: Variable| v@),
        ));
        r
    }
}

impl StringInterpolator for ParseContext {
    open spec fn spec_interpolate(&self, s: Seq<char>, reader: Seq<char>) -> Result<
        Seq<char>,
        InterpFailure,
    > {
        spec_interp_from(vars_assoc(self.vars@), s, reader, 0)
    }

    /// Replaces each `{variable(name)}` reference with the variable's
    /// current value, read for `reader`; other text is kept as it is.
    fn interpolate(&self, s: &str, reader: &str) -> (r: Result<String, InterpolateError>)
        ensures
            match r {
                Ok(t) => self.spec_interpolate(s@, reader@) == Ok::<_, InterpFailure>(t@),
                Err(e) => self.spec_interpolate(s@, reader@) == Err::<Seq<char>, _>(e@),
            },
    {
        let ghost va = vars_assoc(self.vars@);
        let n = s.unicode_len();
        let mut out = String::new();
        let mut i: usize = 0;
        #[verifier::loop_isolation(false)]
        while i < n
            invariant
                0 <= i <= n,
                n == s@.len(),
                va == vars_assoc(self.vars@),
                match spec_interp_from(va, s@, reader@, i as int) {
                    Ok(rest) => spec_interp_from(va, s@, reader@, 0) == Ok::<_, InterpFailure>(
                        out@ + rest,
                    ),
                    Err(e) => spec_interp_from(va, s@, reader@, 0) == Err::<Seq<char>, _>(e),
                },
            decreases n - i,
        {
            match match_at(s, i) {
                None => {
                    let ghost pre = out@;
                    out.append(s.substring_char(i, i + 1));
                    assert(out@ =~= pre + seq![s@[i as int]]);
                    proof {
                        match spec_interp_from(va, s@, reader@, i as int + 1) {
                            Ok(rest) => {
                                assert(pre + (seq![s@[i as int]] + rest) =~= out@ + rest);
                            },
                            Err(e) => {},
                        }
                    }
                    i = i + 1;
                },
                Some(m) => {
                    proof {
                        lemma_match_at_bounds(s@, i as int);
                    }
                    let (func, arg, end) = m;
                    if !str_eq(func.as_str(), "variable") {
                        return Err(InterpolateError::UnknownFunction(func));
                    }
                    match self.read_variable(arg.as_str(), reader) {
                        Err(e) => {
                            return Err(InterpolateError::Variable(e));
                        },
                        Ok(val) => {
                            let ghost pre = out@;
                            out.append(val.as_str());
                            proof {
                                match spec_interp_from(va, s@, reader@, end as int) {
                                    Ok(rest) => {
                                        assert(pre + (val@ + rest) =~= out@ + rest);
                                    },
                                    Err(e) => {},
                                }
                            }
                            i = end;
                        },
                    }
                },
            }
        }
        assert(out@ + Seq::<char>::empty() =~= out@);
        Ok(out)
    }
}

} // verus!
