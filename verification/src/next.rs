use vstd::prelude::*;

use crate::arg_spec::{spec_arg_entry_value, ArgError, ArgSpecEntry, StructValue, StructValueView};
use crate::script::{BuildError, ScriptValue};
use crate::text::str_eq;

verus! {

/// A declared continuation: a host-side callable handle plus the named,
/// typed argument slots its invocation must satisfy.
#[derive(Debug)]
pub struct NextStub {
    pub implementation: u64,
    pub arg_spec: Vec<(String, ArgSpecEntry)>,
}

/// A bound continuation: the callable handle plus its validated
/// arguments.
#[derive(Debug)]
pub struct Next {
    pub implementation: u64,
    pub args: Vec<(String, StructValue)>,
}

/// View of a bound continuation's argument record.
pub open spec fn next_args_view(args: Seq<(String, StructValue)>) -> Seq<
    (Seq<char>, StructValueView),
> {
    args.map_values(|p: (String, StructValue)| (p.0@, p.1@))
}

/// Builds a stub from a `next(implementation = ..., args = ...)`
/// declaration: the implementation must be a function.
pub fn next_impl(implementation: ScriptValue, arg_spec: Vec<(String, ArgSpecEntry)>) -> (r: Result<
    NextStub,
    BuildError,
>)
    ensures
        match implementation {
            ScriptValue::Function(h) => r matches Ok(s) && s.implementation == h && s.arg_spec@
                == arg_spec@,
            _ => r matches Err(BuildError::NextNotAFunction),
        },
{
    let h = match implementation {
        ScriptValue::Function(h) => h,
        _ => {
            return Err(BuildError::NextNotAFunction);
        },
    };
    Ok(NextStub { implementation: h, arg_spec })
}

/// The value supplied under `name`, if any.
pub open spec fn spec_lookup_supplied(
    supplied: Seq<(String, ScriptValue)>,
    name: Seq<char>,
) -> Option<ScriptValue>
    decreases supplied.len(),
{
    if supplied.len() == 0 {
        None
    } else if supplied[0].0@ == name {
        Some(supplied[0].1)
    } else {
        spec_lookup_supplied(supplied.drop_first(), name)
    }
}

fn find_supplied<'a>(supplied: &'a Vec<(String, ScriptValue)>, name: &str) -> (r: Option<
    &'a ScriptValue,
>)
    ensures
        match r {
            Some(v) => spec_lookup_supplied(supplied@, name@) == Some(*v),
            None => spec_lookup_supplied(supplied@, name@) is None,
        },
{
    let n = supplied.len();
    let mut i: usize = 0;
    assert(supplied@.skip(0) =~= supplied@);
    #[verifier::loop_isolation(false)]
    while i < n
        invariant
            0 <= i <= n,
            n == supplied@.len(),
            spec_lookup_supplied(supplied@, name@) == spec_lookup_supplied(
                supplied@.skip(i as int),
                name@,
            ),
        decreases n - i,
    {
        let ghost tail = supplied@.skip(i as int);
        assert(tail[0] == supplied@[i as int]);
        if str_eq(supplied[i].0.as_str(), name) {
            return Some(&supplied[i].1);
        }
        assert(tail.drop_first() =~= supplied@.skip(i as int + 1));
        i = i + 1;
    }
    assert(supplied@.skip(n as int) =~= Seq::<(String, ScriptValue)>::empty());
    None
}

/// Validating every declared slot, in declaration order: a supplied
/// value must match the slot's type exactly, a missing one takes the
/// default, and the first mismatch is the error.
pub open spec fn spec_finalize(
    entries: Seq<(String, ArgSpecEntry)>,
    supplied: Seq<(String, ScriptValue)>,
) -> Result<Seq<(Seq<char>, StructValueView)>, ArgError>
    decreases entries.len(),
{
    if entries.len() == 0 {
        Ok(Seq::empty())
    } else {
        match spec_arg_entry_value(entries[0].1, spec_lookup_supplied(supplied, entries[0].0@)) {
            Err(e) => Err(e),
            Ok(sv) => match spec_finalize(entries.drop_first(), supplied) {
                Ok(l) => Ok(seq![(entries[0].0@, sv)] + l),
                Err(e) => Err(e),
            },
        }
    }
}

/// What invoking a stub yields: the validated argument record, unless a
/// slot mismatches or more arguments were supplied than the stub
/// declares.
pub open spec fn spec_invoke(
    entries: Seq<(String, ArgSpecEntry)>,
    supplied: Seq<(String, ScriptValue)>,
) -> Result<Seq<(Seq<char>, StructValueView)>, ArgError> {
    match spec_finalize(entries, supplied) {
        Err(e) => Err(e),
        Ok(l) => {
            if supplied.len() > entries.len() {
                Err(ArgError::TooManyArguments)
            } else {
                Ok(l)
            }
        },
    }
}

impl NextStub {
    /// Validates the supplied named arguments against the declared
    /// slots and binds the continuation.
    pub fn invoke(&self, supplied: &Vec<(String, ScriptValue)>) -> (r: Result<Next, ArgError>)
        ensures
            match spec_invoke(self.arg_spec@, supplied@) {
                Ok(l) => r matches Ok(nx) && nx.implementation == self.implementation
                    && next_args_view(nx.args@) == l,
                Err(e) => r matches Err(re) && re == e,
            },
    {
        let n = self.arg_spec.len();
        let mut out: Vec<(String, StructValue)> = Vec::new();
        let mut i: usize = 0;
        assert(self.arg_spec@.skip(0) =~= self.arg_spec@);
        #[verifier::loop_isolation(false)]
        while i < n
            invariant
                0 <= i <= n,
                n == self.arg_spec@.len(),
                match spec_finalize(self.arg_spec@.skip(i as int), supplied@) {
                    Ok(rest) => spec_finalize(self.arg_spec@, supplied@) == Ok::<_, ArgError>(
                        next_args_view(out@) + rest,
                    ),
                    Err(e) => spec_finalize(self.arg_spec@, supplied@) == Err::<
                        Seq<(Seq<char>, StructValueView)>,
                        _,
                    >(e),
                },
            decreases n - i,
        {
            let ghost tail = self.arg_spec@.skip(i as int);
            assert(tail[0] == self.arg_spec@[i as int]);
            let name = self.arg_spec[i].0.clone();
            let supplied_value = find_supplied(supplied, name.as_str());
            let sv = match self.arg_spec[i].1.struct_value(supplied_value) {
                Ok(sv) => sv,
                Err(e) => {
                    return Err(e);
                },
            };
            let ghost pre = next_args_view(out@);
            out.push((name, sv));
            assert(next_args_view(out@) =~= pre.push((tail[0].0@, sv@)));
            proof {
                assert(tail.drop_first() =~= self.arg_spec@.skip(i as int + 1));
                match spec_finalize(self.arg_spec@.skip(i as int + 1), supplied@) {
                    Ok(rest) => {
                        assert(pre + (seq![(tail[0].0@, sv@)] + rest) =~= next_args_view(out@)
                            + rest);
                    },
                    Err(e) => {},
                }
            }
            i = i + 1;
        }
        assert(self.arg_spec@.skip(n as int) =~= Seq::<(String, ArgSpecEntry)>::empty());
        if supplied.len() > self.arg_spec.len() {
            return Err(ArgError::TooManyArguments);
        }
        assert(next_args_view(out@) + Seq::<(Seq<char>, StructValueView)>::empty() =~= next_args_view(
            out@,
        ));
        Ok(Next { implementation: self.implementation, args: out })
    }
}

impl Next {
    pub fn implementation(&self) -> (r: u64)
        ensures
            r == self.implementation,
    {
        self.implementation
    }

    /// The validated argument record, in declaration order.
    pub fn args(&self) -> (r: &Vec<(String, StructValue)>)
        ensures
            r@ == self.args@,
    {
        &self.args
    }
}

} // verus!
