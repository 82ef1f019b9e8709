use vstd::prelude::*;

use crate::errors::{ExecError, ExecErrorView};
use crate::script::{spec_display, to_late_bound, BuildError, ScriptValue};
use crate::setter::Setter;
use crate::tool::Tool;
use crate::variables::{
    spec_get_value, FormatError, FormatFailure, LateBoundString, OneOf, VariableResolver,
};

use vstd::utf8::{decode_utf8, valid_utf8};

verus! {

/// The exit code recorded for a finished subprocess: the primary exit
/// code when there is one, else the terminating signal's number, else
/// -1.
pub open spec fn spec_exit_code(code: Option<i32>, signal: Option<i32>) -> int {
    match code {
        Some(c) => c as int,
        None => match signal {
            Some(s) => s as int,
            None => -1,
        },
    }
}

pub fn exit_code_from_status(code: Option<i32>, signal: Option<i32>) -> (r: i32)
    ensures
        r as int == spec_exit_code(code, signal),
{
    match code {
        Some(c) => c,
        None => match signal {
            Some(s) => s,
            None => -1,
        },
    }
}

/// The captured result of one action run: both output streams as text,
/// plus the resolved exit code.
#[derive(Debug)]
pub struct ActionCtx {
    pub stdout: String,
    pub stderr: String,
    pub exit_code: i32,
}

impl ActionCtx {
    pub fn new(stdout: String, stderr: String, exit_code: i32) -> (r: ActionCtx)
        ensures
            r.stdout@ == stdout@,
            r.stderr@ == stderr@,
            r.exit_code == exit_code,
    {
        ActionCtx { stdout, stderr, exit_code }
    }

    pub fn stdout(&self) -> (r: &str)
        ensures
            r@ == self.stdout@,
    {
        self.stdout.as_str()
    }

    pub fn stderr(&self) -> (r: &str)
        ensures
            r@ == self.stderr@,
    {
        self.stderr.as_str()
    }

    pub fn exit_code(&self) -> (r: i32)
        ensures
            r == self.exit_code,
    {
        self.exit_code
    }

    /// An owned copy with the same content.
    pub fn duplicate(&self) -> (r: Self)
        ensures
            r.stdout@ == self.stdout@,
            r.stderr@ == self.stderr@,
            r.exit_code == self.exit_code,
    {
        ActionCtx {
            stdout: self.stdout.clone(),
            stderr: self.stderr.clone(),
            exit_code: self.exit_code,
        }
    }
}

/// Relies on `String::from_utf8`: decodes the bytes as UTF-8 text,
/// succeeding exactly on valid UTF-8.
#[verifier::external_body]
fn bytes_to_string(bytes: &Vec<u8>) -> (r: Option<String>)
    ensures
        match r {
            Some(s) => valid_utf8(bytes@) && s@ == decode_utf8(bytes@),
            None => !valid_utf8(bytes@),
        },
{
    String::from_utf8(bytes.clone()).ok()
}

/// Buffers a subprocess's two output streams while they are mirrored to
/// the host's own; buffering can be switched off when nothing will read
/// the capture.
#[derive(Debug)]
pub struct OutputCollector {
    pub stdout: Vec<u8>,
    pub stderr: Vec<u8>,
    pub should_collect: bool,
}

impl OutputCollector {
    pub fn new(should_collect: bool) -> (r: OutputCollector)
        ensures
            r.stdout@ =~= Seq::<u8>::empty(),
            r.stderr@ =~= Seq::<u8>::empty(),
            r.should_collect == should_collect,
    {
        OutputCollector { stdout: Vec::new(), stderr: Vec::new(), should_collect }
    }

    /// Appends one read's worth of both streams to the buffers, when
    /// collection is on.
    pub fn collect(&mut self, buf_stdout: &[u8], buf_stderr: &[u8]) -> (r: Result<(), ()>)
        ensures
            r is Ok,
            old(self).should_collect ==> final(self).stdout@ == old(self).stdout@ + buf_stdout@
                && final(self).stderr@ == old(self).stderr@ + buf_stderr@,
            !old(self).should_collect ==> final(self).stdout@ == old(self).stdout@
                && final(self).stderr@ == old(self).stderr@,
            final(self).should_collect == old(self).should_collect,
    {
        if self.should_collect {
            let mut i: usize = 0;
            let n = buf_stdout.len();
            #[verifier::loop_isolation(false)]
            while i < n
                invariant
                    0 <= i <= n,
                    n == buf_stdout@.len(),
                    self.stdout@ =~= old(self).stdout@ + buf_stdout@.take(i as int),
                    self.stderr@ == old(self).stderr@,
                    self.should_collect == old(self).should_collect,
                decreases n - i,
            {
                self.stdout.push(buf_stdout[i]);
                assert(self.stdout@ =~= old(self).stdout@ + buf_stdout@.take(i as int + 1));
                i = i + 1;
            }
            assert(self.stdout@ =~= old(self).stdout@ + buf_stdout@);
            let mut j: usize = 0;
            let m = buf_stderr.len();
            #[verifier::loop_isolation(false)]
            while j < m
                invariant
                    0 <= j <= m,
                    m == buf_stderr@.len(),
                    self.stdout@ == old(self).stdout@ + buf_stdout@,
                    self.stderr@ =~= old(self).stderr@ + buf_stderr@.take(j as int),
                    self.should_collect == old(self).should_collect,
                decreases m - j,
            {
                self.stderr.push(buf_stderr[j]);
                assert(self.stderr@ =~= old(self).stderr@ + buf_stderr@.take(j as int + 1));
                j = j + 1;
            }
            assert(self.stderr@ =~= old(self).stderr@ + buf_stderr@);
        }
        Ok(())
    }

    /// The captured stdout as text; non-UTF-8 capture is an error.
    pub fn stdout(&self) -> (r: Result<String, ExecError>)
        ensures
            match r {
                Ok(s) => valid_utf8(self.stdout@) && s@ == decode_utf8(self.stdout@),
                Err(e) => !valid_utf8(self.stdout@) && e@ == ExecErrorView::NonUtf8Output,
            },
    {
        match bytes_to_string(&self.stdout) {
            Some(s) => Ok(s),
            None => Err(ExecError::NonUtf8Output),
        }
    }

    /// The captured stderr as text; non-UTF-8 capture is an error.
    pub fn stderr(&self) -> (r: Result<String, ExecError>)
        ensures
            match r {
                Ok(s) => valid_utf8(self.stderr@) && s@ == decode_utf8(self.stderr@),
                Err(e) => !valid_utf8(self.stderr@) && e@ == ExecErrorView::NonUtf8Output,
            },
    {
        match bytes_to_string(&self.stderr) {
            Some(s) => Ok(s),
            None => Err(ExecError::NonUtf8Output),
        }
    }
}

/// A single tool invocation: the tool, its argument expressions in
/// declared order, and the setters run after it completes.
#[derive(Debug)]
pub struct Action {
    pub tool: Tool,
    pub args: Vec<LateBoundString>,
    pub setters: Vec<Setter>,
}

/// The setters among a list of script values, in order; other values
/// are passed over.
pub open spec fn spec_filter_setters(vals: Seq<ScriptValue>) -> Seq<Setter>
    decreases vals.len(),
{
    if vals.len() == 0 {
        Seq::empty()
    } else {
        match vals[0] {
            ScriptValue::Setter(s) => seq![s] + spec_filter_setters(vals.drop_first()),
            _ => spec_filter_setters(vals.drop_first()),
        }
    }
}

/// Builds an action from an `action(tool = ..., args = ..., setters =
/// ...)` declaration: the tool argument must be a tool.
pub fn action_impl(tool: ScriptValue, args: Vec<ScriptValue>, setters: Vec<ScriptValue>) -> (r:
    Result<Action, BuildError>)
    ensures
        match tool {
            ScriptValue::Tool(t) => r matches Ok(a) && a.tool == t && a.setters@
                == spec_filter_setters(setters@) && a.args@.len() == args@.len() && (forall|i: int|
                0 <= i < args@.len() ==> match #[trigger] args@[i] {
                    ScriptValue::VariableRef(vr) => a.args@[i] matches LateBoundString(
                        OneOf::Identifier(id),
                    ) && id@ == vr.identifier@,
                    ScriptValue::Formatter(f) => a.args@[i] == LateBoundString(
                        OneOf::ValueFormatter(f),
                    ),
                    _ => a.args@[i] matches LateBoundString(OneOf::Value(s)) && s@ == spec_display(
                        args@[i],
                    ),
                }),
            _ => r matches Err(BuildError::NotATool),
        },
{
    let t = match tool {
        ScriptValue::Tool(t) => t,
        _ => {
            return Err(BuildError::NotATool);
        },
    };
    let ghost orig_args = args@;
    let mut args = args;
    let mut lb_args: Vec<LateBoundString> = Vec::new();
    #[verifier::loop_isolation(false)]
    while args.len() > 0
        invariant
            args@ =~= orig_args.skip(lb_args@.len() as int),
            lb_args@.len() <= orig_args.len(),
            forall|i: int|
                0 <= i < lb_args@.len() ==> match #[trigger] orig_args[i] {
                    ScriptValue::VariableRef(vr) => lb_args@[i] matches LateBoundString(
                        OneOf::Identifier(id),
                    ) && id@ == vr.identifier@,
                    ScriptValue::Formatter(f) => lb_args@[i] == LateBoundString(
                        OneOf::ValueFormatter(f),
                    ),
                    _ => lb_args@[i] matches LateBoundString(OneOf::Value(s)) && s@ == spec_display(
                        orig_args[i],
                    ),
                },
        decreases args@.len(),
    {
        let ghost k = lb_args@.len() as int;
        assert(args@[0] == orig_args[k]);
        let v = args.remove(0);
        lb_args.push(to_late_bound(v));
        assert(args@ =~= orig_args.skip(k + 1));
    }
    let ghost orig_setters = setters@;
    let mut setters = setters;
    let mut kept: Vec<Setter> = Vec::new();
    assert(orig_setters.skip(0) =~= orig_setters);
    #[verifier::loop_isolation(false)]
    while setters.len() > 0
        invariant
            setters@.len() <= orig_setters.len(),
            setters@ =~= orig_setters.skip(orig_setters.len() - setters@.len()),
            spec_filter_setters(orig_setters) =~= kept@ + spec_filter_setters(setters@),
        decreases setters@.len(),
    {
        let ghost tail = setters@;
        let ghost base = orig_setters.len() - tail.len();
        assert(0 <= base <= orig_setters.len() - 1);
        assert(tail =~= orig_setters.skip(base));
        let v = setters.remove(0);
        assert(setters@ =~= tail.drop_first());
        assert(tail.drop_first() =~= orig_setters.skip(base + 1));
        match v {
            ScriptValue::Setter(s) => {
                let ghost pre = kept@;
                kept.push(s);
                assert(pre + (seq![s] + spec_filter_setters(setters@)) =~= kept@
                    + spec_filter_setters(setters@));
            },
            _ => {},
        }
        assert(setters@ =~= orig_setters.skip(orig_setters.len() - setters@.len()));
    }
    assert(spec_filter_setters(setters@) =~= Seq::<Setter>::empty());
    assert(kept@ + Seq::<Setter>::empty() =~= kept@);
    Ok(Action { tool: t, args: lb_args, setters: kept })
}

/// Each argument resolved in declared order; the first failure aborts
/// the whole list.
pub open spec fn spec_arg_list<R: VariableResolver>(
    args: Seq<LateBoundString>,
    resolver: &R,
) -> Result<Seq<Seq<char>>, FormatFailure>
    decreases args.len(),
{
    if args.len() == 0 {
        Ok(Seq::empty())
    } else {
        match spec_get_value(args[0], resolver) {
            Err(e) => Err(e),
            Ok(v) => match spec_arg_list(args.drop_first(), resolver) {
                Ok(rest) => Ok(seq![v] + rest),
                Err(e) => Err(e),
            },
        }
    }
}

impl Action {
    /// Resolves the action's argument expressions, in declared order; a
    /// failure on any argument aborts the action before it spawns.
    pub fn arg_list<R: VariableResolver>(&self, resolver: &R) -> (r: Result<
        Vec<String>,
        FormatError,
    >)
        ensures
            match spec_arg_list(self.args@, resolver) {
                Ok(l) => r matches Ok(v) && v@.map_values(|s: String| s@) =~= l,
                Err(f) => r matches Err(e) && e@ == f,
            },
    {
        let n = self.args.len();
        let mut out: Vec<String> = Vec::new();
        let mut i: usize = 0;
        assert(self.args@.skip(0) =~= self.args@);
        #[verifier::loop_isolation(false)]
        while i < n
            invariant
                0 <= i <= n,
                n == self.args@.len(),
                out@.len() == i,
                match spec_arg_list(self.args@.skip(i as int), resolver) {
                    Ok(rest) => spec_arg_list(self.args@, resolver) == Ok::<_, FormatFailure>(
                        out@.map_values(|s: String| s@) + rest,
                    ),
                    Err(e) => spec_arg_list(self.args@, resolver) == Err::<Seq<Seq<char>>, _>(e),
                },
            decreases n - i,
        {
            let ghost tail = self.args@.skip(i as int);
            assert(tail[0] == self.args@[i as int]);
            let v = match self.args[i].get_value(resolver) {
                Ok(v) => v,
                Err(e) => {
                    return Err(e);
                },
            };
            let ghost pre = out@.map_values(|s: String| s@);
            out.push(v);
            assert(out@.map_values(|s: String| s@) =~= pre.push(v@));
            proof {
                assert(tail.drop_first() =~= self.args@.skip(i as int + 1));
                match spec_arg_list(self.args@.skip(i as int + 1), resolver) {
                    Ok(rest) => {
                        assert(pre + (seq![v@] + rest) =~= out@.map_values(|s: String| s@) + rest);
                    },
                    Err(e) => {},
                }
            }
            i = i + 1;
        }
        assert(self.args@.skip(n as int) =~= Seq::<LateBoundString>::empty());
        assert(out@.map_values(|s: String| s@) + Seq::<Seq<char>>::empty() =~= out@.map_values(
            |s: String| s@,
        ));
        Ok(out)
    }
}

/// Decides what a setter's return value means: a string is the new value
/// to write, none skips the update, anything else is an error.
pub fn setter_return_value(ret: &ScriptValue) -> (r: Result<Option<String>, ExecError>)
    ensures
        match ret {
            ScriptValue::Str(s) => r matches Ok(Some(v)) && v@ == s@,
            ScriptValue::NoneVal => r matches Ok(o) && o is None,
            _ => r matches Err(e) && e@ == ExecErrorView::InvalidReturnType,
        },
{
    match ret {
        ScriptValue::Str(s) => Ok(Some(s.clone())),
        ScriptValue::NoneVal => Ok(None),
        _ => Err(ExecError::InvalidReturnType),
    }
}

} // verus!
