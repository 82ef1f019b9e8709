use vstd::prelude::*;

use crate::text::str_eq;
use crate::variable::env_view;

verus! {

/// Errors raised when a variable's value is looked up through a
/// `VariableResolver`.
#[derive(Debug)]
pub enum VariableResolverError {
    UnknownVariable(String),
    NoValueSet(String),
}

pub enum VariableResolverErrorView {
    UnknownVariable(Seq<char>),
    NoValueSet(Seq<char>),
}

impl View for VariableResolverError {
    type V = VariableResolverErrorView;

    open spec fn view(&self) -> VariableResolverErrorView {
        match self {
            VariableResolverError::UnknownVariable(s) => VariableResolverErrorView::UnknownVariable(
                s@,
            ),
            VariableResolverError::NoValueSet(s) => VariableResolverErrorView::NoValueSet(s@),
        }
    }
}

impl VariableResolverError {
    /// Renders the error as the user-facing message text.
    pub fn message(&self) -> (r: String)
        ensures
            match self@ {
                VariableResolverErrorView::UnknownVariable(v) => r@
                    == "Unknown variable with id '"@ + v + "'"@,
                VariableResolverErrorView::NoValueSet(v) => r@ == "Variable with id '"@ + v
                    + "' has no value"@,
            },
    {
        match self {
            VariableResolverError::UnknownVariable(v) => {
                let mut m = "Unknown variable with id '".to_owned();
                m.append(v.as_str());
                m.append("'");
                m
            },
            VariableResolverError::NoValueSet(v) => {
                let mut m = "Variable with id '".to_owned();
                m.append(v.as_str());
                m.append("' has no value");
                m
            },
        }
    }
}

/// The two ways a resolution can fail: the identifier is not known at
/// all, or it is known but carries no value.
pub enum ResolveFailure {
    Unknown,
    NoValue,
}

/// The exact error a failure kind names for an identifier.
pub open spec fn resolve_error_view(
    failure: ResolveFailure,
    identifier: Seq<char>,
) -> VariableResolverErrorView {
    match failure {
        ResolveFailure::Unknown => VariableResolverErrorView::UnknownVariable(identifier),
        ResolveFailure::NoValue => VariableResolverErrorView::NoValueSet(identifier),
    }
}

/// Resolves a variable identifier to its current value.
pub trait VariableResolver {
    /// What this resolver would answer for each identifier.
    spec fn spec_resolve(&self, identifier: Seq<char>) -> Option<Seq<char>>;

    /// Why a resolution would fail; consulted only where `spec_resolve`
    /// answers nothing.
    spec fn spec_resolve_failure(&self, identifier: Seq<char>) -> ResolveFailure;

    /// Returns the value for the identifier, or the resolver's exact
    /// error when the identifier is unknown or carries no value.
    fn resolve(&self, identifier: &str) -> (r: Result<String, VariableResolverError>)
        ensures
            match r {
                Ok(s) => self.spec_resolve(identifier@) == Some(s@),
                Err(e) => self.spec_resolve(identifier@) is None && e@ == resolve_error_view(
                    self.spec_resolve_failure(identifier@),
                    identifier@,
                ),
            },
    ;
}

/// A resolver that answers the same value for every identifier.
impl VariableResolver for String {
    open spec fn spec_resolve(&self, identifier: Seq<char>) -> Option<Seq<char>> {
        Some(self@)
    }

    /// Never consulted: this resolver always answers.
    open spec fn spec_resolve_failure(&self, identifier: Seq<char>) -> ResolveFailure {
        ResolveFailure::Unknown
    }

    fn resolve(&self, identifier: &str) -> (r: Result<String, VariableResolverError>)
        ensures
            match r {
                Ok(s) => self.spec_resolve(identifier@) == Some(s@),
                Err(e) => self.spec_resolve(identifier@) is None && e@ == resolve_error_view(
                    self.spec_resolve_failure(identifier@),
                    identifier@,
                ),
            },
    {
        Ok(self.clone())
    }
}

/// A resolver backed by a list of (identifier, value) pairs.
#[derive(Debug)]
pub struct MapResolver {
    pub pairs: Vec<(String, String)>,
}

impl MapResolver {
    pub fn new() -> (r: MapResolver)
        ensures
            env_view(r.pairs@) =~= Seq::<(Seq<char>, Seq<char>)>::empty(),
    {
        let r = MapResolver { pairs: Vec::new() };
        assert(env_view(r.pairs@) =~= Seq::<(Seq<char>, Seq<char>)>::empty());
        r
    }

    pub fn insert(&mut self, identifier: &str, value: &str)
        ensures
            env_view(final(self).pairs@) =~= env_view(old(self).pairs@).push((identifier@, value@)),
    {
        self.pairs.push((identifier.to_owned(), value.to_owned()));
        assert(env_view(self.pairs@) =~= env_view(old(self).pairs@).push((identifier@, value@)));
    }
}

impl VariableResolver for MapResolver {
    open spec fn spec_resolve(&self, identifier: Seq<char>) -> Option<Seq<char>> {
        crate::variable::env_lookup(env_view(self.pairs@), identifier)
    }

    /// An identifier this map lacks is unknown; a present one always
    /// has a value.
    open spec fn spec_resolve_failure(&self, identifier: Seq<char>) -> ResolveFailure {
        ResolveFailure::Unknown
    }

    fn resolve(&self, identifier: &str) -> (r: Result<String, VariableResolverError>)
        ensures
            match r {
                Ok(s) => self.spec_resolve(identifier@) == Some(s@),
                Err(e) => self.spec_resolve(identifier@) is None && e@ == resolve_error_view(
                    self.spec_resolve_failure(identifier@),
                    identifier@,
                ),
            },
    {
        let n = self.pairs.len();
        let mut i: usize = 0;
        assert(env_view(self.pairs@).skip(0) =~= env_view(self.pairs@));
        #[verifier::loop_isolation(false)]
        while i < n
            invariant
                0 <= i <= n,
                n == self.pairs@.len(),
                crate::variable::env_lookup(env_view(self.pairs@), identifier@)
                    == crate::variable::env_lookup(
                    env_view(self.pairs@).skip(i as int),
                    identifier@,
                ),
            decreases n - i,
        {
            let ghost tail = env_view(self.pairs@).skip(i as int);
            assert(tail[0] == (self.pairs@[i as int].0@, self.pairs@[i as int].1@));
            if str_eq(self.pairs[i].0.as_str(), identifier) {
                return Ok(self.pairs[i].1.clone());
            }
            assert(tail.drop_first() =~= env_view(self.pairs@).skip(i as int + 1));
            i = i + 1;
        }
        assert(env_view(self.pairs@).skip(n as int) =~= Seq::<(Seq<char>, Seq<char>)>::empty());
        Err(VariableResolverError::UnknownVariable(identifier.to_owned()))
    }
}

// ---------------------------------------------------------------------------
// Late-bound strings and the value formatter
// ---------------------------------------------------------------------------
/// Errors raised when a late-bound string or formatter is evaluated.
#[derive(Debug)]
pub enum FormatError {
    MoreArgsThanPlaceholders,
    Resolver(VariableResolverError),
}

impl FormatError {
    /// Renders the error as the user-facing message text.
    pub fn message(&self) -> (r: String)
        ensures
            match self {
                FormatError::MoreArgsThanPlaceholders => r@ == "more args than placeholders"@,
                FormatError::Resolver(e) => match e@ {
                    VariableResolverErrorView::UnknownVariable(v) => r@
                        == "Unknown variable with id '"@ + v + "'"@,
                    VariableResolverErrorView::NoValueSet(v) => r@ == "Variable with id '"@ + v
                        + "' has no value"@,
                },
            },
    {
        match self {
            FormatError::MoreArgsThanPlaceholders => "more args than placeholders".to_owned(),
            FormatError::Resolver(e) => e.message(),
        }
    }
}

/// Spec-level shape of a formatting failure, carrying the resolver's
/// exact error where one caused it.
pub enum FormatFailure {
    MoreArgsThanPlaceholders,
    Unresolved(VariableResolverErrorView),
}

impl View for FormatError {
    type V = FormatFailure;

    open spec fn view(&self) -> FormatFailure {
        match self {
            FormatError::MoreArgsThanPlaceholders => FormatFailure::MoreArgsThanPlaceholders,
            FormatError::Resolver(e) => FormatFailure::Unresolved(e@),
        }
    }
}

/// The three shapes a late-bound string can take.
#[derive(Debug)]
pub enum OneOf {
    Value(String),
    Identifier(String),
    ValueFormatter(ValueFormatter),
}

/// A string that is produced on demand: either a literal value, a
/// variable's current value, or a formatted combination of both.
#[derive(Debug)]
pub struct LateBoundString(pub OneOf);

/// A `{}`-placeholder format string together with its late-bound
/// positional arguments.
#[derive(Debug)]
pub struct ValueFormatter {
    pub fmt_str: String,
    pub values: Vec<LateBoundString>,
}

/// First index `i >= from` with `s[i] == '{'` and `s[i+1] == '}'`.
pub open spec fn first_placeholder_from(s: Seq<char>, from: int) -> Option<int>
    decreases s.len() - from,
{
    if from < 0 || from + 1 >= s.len() {
        None
    } else if s[from] == '{' && s[from + 1] == '}' {
        Some(from)
    } else {
        first_placeholder_from(s, from + 1)
    }
}

/// `s` with its first `{}` placeholder replaced by `v`; none when `s`
/// holds no placeholder.
pub open spec fn spec_replace_first(s: Seq<char>, v: Seq<char>) -> Option<Seq<char>> {
    match first_placeholder_from(s, 0) {
        Some(i) => Some(s.take(i) + v + s.skip(i + 2)),
        None => None,
    }
}

/// The value a late-bound string evaluates to under `resolver`.
pub open spec fn spec_get_value<R: VariableResolver>(lb: LateBoundString, resolver: &R) -> Result<
    Seq<char>,
    FormatFailure,
>
    decreases lb,
{
    match lb.0 {
        OneOf::Value(s) => Ok(s@),
        OneOf::Identifier(id) => match resolver.spec_resolve(id@) {
            Some(v) => Ok(v),
            None => Err(
                FormatFailure::Unresolved(
                    resolve_error_view(resolver.spec_resolve_failure(id@), id@),
                ),
            ),
        },
        OneOf::ValueFormatter(vf) => spec_fmt_values(vf.fmt_str@, vf.values@, resolver),
    }
}

/// Folds the remaining arguments into the partially filled format
/// string, one placeholder per argument, left to right.
pub open spec fn spec_fmt_values<R: VariableResolver>(
    cur: Seq<char>,
    vals: Seq<LateBoundString>,
    resolver: &R,
) -> Result<Seq<char>, FormatFailure>
    decreases vals,
{
    if vals.len() == 0 {
        Ok(cur)
    } else {
        match spec_get_value(vals[0], resolver) {
            Err(e) => Err(e),
            Ok(v) => match spec_replace_first(cur, v) {
                None => Err(FormatFailure::MoreArgsThanPlaceholders),
                Some(next) => spec_fmt_values(next, vals.drop_first(), resolver),
            },
        }
    }
}

/// First `{}` placeholder of `s`, as executable code.
fn find_placeholder(s: &str) -> (r: Option<usize>)
    ensures
        match r {
            Some(i) => Some(i as int) == first_placeholder_from(s@, 0) && i + 1 < s@.len(),
            None => first_placeholder_from(s@, 0) is None,
        },
{
    let n = s.unicode_len();
    if n < 2 {
        return None;
    }
    let m = n - 1;
    let mut i: usize = 0;
    #[verifier::loop_isolation(false)]
    while i < m
        invariant
            0 <= i <= n,
            m == n - 1,
            n == s@.len(),
            n >= 2,
            first_placeholder_from(s@, 0) == first_placeholder_from(s@, i as int),
        decreases n - i,
    {
        if s.get_char(i) == '{' && s.get_char(i + 1) == '}' {
            return Some(i);
        }
        i = i + 1;
    }
    None
}

/// Replaces the first `{}` of `s` with `v`, if `s` has one.
fn replace_first(s: &str, v: &str) -> (r: Option<String>)
    ensures
        match r {
            Some(t) => spec_replace_first(s@, v@) == Some(t@),
            None => spec_replace_first(s@, v@) is None,
        },
{
    match find_placeholder(s) {
        None => None,
        Some(i) => {
            let n = s.unicode_len();
            let mut out = s.substring_char(0, i).to_owned();
            out.append(v);
            out.append(s.substring_char(i + 2, n));
            assert(out@ =~= s@.take(i as int) + v@ + s@.skip(i as int + 2));
            Some(out)
        },
    }
}

impl LateBoundString {
    /// A late-bound string that always yields `string`.
    pub fn with_value(string: String) -> (r: LateBoundString)
        ensures
            r == LateBoundString(OneOf::Value(string)),
    {
        LateBoundString(OneOf::Value(string))
    }

    /// A late-bound string that yields the current value of the variable
    /// registered under `identifier`.
    pub fn with_identifier(identifier: String) -> (r: LateBoundString)
        ensures
            r == LateBoundString(OneOf::Identifier(identifier)),
    {
        LateBoundString(OneOf::Identifier(identifier))
    }

    /// A late-bound string that yields what `formatter` produces.
    pub fn with_value_formatter(formatter: ValueFormatter) -> (r: LateBoundString)
        ensures
            r == LateBoundString(OneOf::ValueFormatter(formatter)),
    {
        LateBoundString(OneOf::ValueFormatter(formatter))
    }

    /// Evaluates the late-bound string under `resolver`.
    pub fn get_value<R: VariableResolver>(&self, resolver: &R) -> (r: Result<String, FormatError>)
        ensures
            match spec_get_value(*self, resolver) {
                Ok(v) => r matches Ok(s) && s@ == v,
                Err(f) => r matches Err(e) && e@ == f,
            },
        decreases *self,
    {
        match &self.0 {
            OneOf::Value(s) => Ok(s.clone()),
            OneOf::Identifier(id) => match resolver.resolve(id.as_str()) {
                Ok(v) => Ok(v),
                Err(e) => Err(FormatError::Resolver(e)),
            },
            OneOf::ValueFormatter(vf) => vf.fmt(resolver),
        }
    }
}

impl ValueFormatter {
    pub fn new(fmt_str: &str, values: Vec<LateBoundString>) -> (r: ValueFormatter)
        ensures
            r.fmt_str@ == fmt_str@,
            r.values == values,
    {
        ValueFormatter { fmt_str: fmt_str.to_owned(), values }
    }

    /// Fills the format string's placeholders from the arguments, in
    /// order; an argument without a matching placeholder is an error.
    pub fn fmt<R: VariableResolver>(&self, resolver: &R) -> (r: Result<String, FormatError>)
        ensures
            match spec_fmt_values(self.fmt_str@, self.values@, resolver) {
                Ok(v) => r matches Ok(s) && s@ == v,
                Err(f) => r matches Err(e) && e@ == f,
            },
        decreases *self,
    {
        let mut cur = self.fmt_str.clone();
        let n = self.values.len();
        let mut i: usize = 0;
        assert(self.values@.skip(0) =~= self.values@);
        #[verifier::loop_isolation(false)]
        while i < n
            invariant
                0 <= i <= n,
                n == self.values@.len(),
                spec_fmt_values(self.fmt_str@, self.values@, resolver) == spec_fmt_values(
                    cur@,
                    self.values@.skip(i as int),
                    resolver,
                ),
            decreases n - i,
        {
            let ghost tail = self.values@.skip(i as int);
            assert(tail[0] == self.values@[i as int]);
            let v = match self.values[i].get_value(resolver) {
                Ok(v) => v,
                Err(e) => {
                    return Err(e);
                },
            };
            cur = match replace_first(cur.as_str(), v.as_str()) {
                Some(next) => next,
                None => {
                    return Err(FormatError::MoreArgsThanPlaceholders);
                },
            };
            assert(tail.drop_first() =~= self.values@.skip(i as int + 1));
            i = i + 1;
        }
        assert(self.values@.skip(n as int) =~= Seq::<LateBoundString>::empty());
        Ok(cur)
    }

}

} // verus!
