//! The process context: the working directory that relative paths resolve against.
use vstd::prelude::*;
use vstd::string::{StrSliceExecFns, StringExecFns};

verus! {

/// The process context, captured once at start.
#[derive(Debug)]
pub struct Config {
    cwd: String,
}

/// `path` resolved against the directory `base`: an absolute path stays as it
/// is; a relative one is appended to `base` with one separator between them.
pub open spec fn join_path(base: Seq<char>, path: Seq<char>) -> Seq<char> {
    if path.len() > 0 && path[0] == '/' {
        path
    } else if base.len() > 0 && base.last() == '/' {
        base + path
    } else {
        base + seq!['/'] + path
    }
}

impl View for Config {
    type V = Seq<char>;

    /// The working directory.
    closed spec fn view(&self) -> Seq<char> {
        self.cwd@
    }
}

impl Config {
    pub fn new(cwd: String) -> (r: Config)
        ensures
            r@ == cwd@,
    {
        Config { cwd }
    }

    /// The working directory.
    pub fn cwd(&self) -> (r: &str)
        ensures
            r@ == self@,
    {
        self.cwd.as_str()
    }

    /// `path` resolved against the working directory.
    pub fn join(&self, path: &str) -> (r: String)
        ensures
            r@ == join_path(self@, path@),
    {
        join_str(self.cwd.as_str(), path)
    }
}

/// `path` resolved against the directory `base`.
pub fn join_str(base: &str, path: &str) -> (r: String)
    ensures
        r@ == join_path(base@, path@),
{
    let plen = path.unicode_len();
    let blen = base.unicode_len();
    if plen > 0 && path.get_char(0) == '/' {
        return path.to_owned();
    }
    let mut r = base.to_owned();
    if !(blen > 0 && base.get_char(blen - 1) == '/') {
        r.append("/");
        proof {
            reveal_strlit("/");
            assert("/"@ =~= seq!['/']);
        }
    }
    r.append(path);
    r
}

} // verus!
