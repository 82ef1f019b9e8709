use vstd::prelude::*;

verus! {

/// A path is absolute when it starts with the separator.
pub open spec fn spec_is_absolute(p: Seq<char>) -> bool {
    p.len() > 0 && p[0] == '/'
}

pub fn is_absolute(p: &str) -> (r: bool)
    ensures
        r == spec_is_absolute(p@),
{
    p.unicode_len() > 0 && p.get_char(0) == '/'
}

/// `path` itself when absolute, otherwise `working_dir` extended with
/// `path`, inserting a separator when one is missing.
pub open spec fn spec_join_path(working_dir: Seq<char>, path: Seq<char>) -> Seq<char> {
    if spec_is_absolute(path) {
        path
    } else if working_dir.len() == 0 {
        path
    } else if working_dir[working_dir.len() - 1] == '/' {
        working_dir + path
    } else {
        working_dir + "/"@ + path
    }
}

pub fn join_path(working_dir: &str, path: &str) -> (r: String)
    ensures
        r@ == spec_join_path(working_dir@, path@),
{
    if is_absolute(path) {
        path.to_owned()
    } else {
        let n = working_dir.unicode_len();
        if n == 0 {
            path.to_owned()
        } else if working_dir.get_char(n - 1) == '/' {
            let mut out = working_dir.to_owned();
            out.append(path);
            out
        } else {
            let mut out = working_dir.to_owned();
            out.append("/");
            out.append(path);
            out
        }
    }
}

/// Relies on `which::which`: looks `path` up on the file system (PATH
/// lookup for bare names, executability check for paths) and returns the
/// located executable's path. The answer depends on the machine's disk
/// and environment, so nothing more is assumed of it.
#[verifier::external_body]
pub(crate) fn which_lookup(path: &str) -> (r: Option<String>) {
    which::which(path).ok().map(|p| p.to_string_lossy().into_owned())
}

} // verus!
