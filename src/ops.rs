//! Creating a new extension project: options, the package name, the files to
//! write and the decisions between the steps that touch the disk.
use vstd::prelude::*;
use vstd::string::StrSliceExecFns;
use crate::config::{join_path, join_str, Config};
use crate::errors::{exit_code_of, BardockError, FAILURE_EXIT_CODE};
use crate::value::option_view;

verus! {

/// What the user asked for: the directory to create, and the package name
/// where it is not to be taken from the directory.
#[derive(Debug)]
pub struct NewOptions {
    pub path: String,
    pub name: Option<String>,
}

impl NewOptions {
    pub fn new(path: String, name: Option<String>) -> (r: Result<NewOptions, BardockError>)
        ensures
            r is Ok,
            r->Ok_0.path == path,
            r->Ok_0.name == name,
    {
        Ok(NewOptions { path, name })
    }
}

/// The final segment of a path: what follows its last `/`, or the whole path
/// where it has none.
pub open spec fn last_segment(p: Seq<char>) -> Seq<char>
    decreases p.len(),
{
    if p.len() == 0 {
        p
    } else if p.last() == '/' {
        Seq::empty()
    } else {
        last_segment(p.drop_last()).push(p.last())
    }
}

/// A segment that names no directory of its own.
pub open spec fn names_nothing(s: Seq<char>) -> bool {
    s.len() == 0 || s == seq!['.'] || s == seq!['.', '.']
}

/// A character that separates the segments of a path.
pub open spec fn is_separator(c: char) -> bool {
    c == '/' || c == '\\'
}

/// A control character: U+0000 to U+001F and U+007F to U+009F.
pub open spec fn is_control(c: char) -> bool {
    (c as u32) < 0x20 || (0x7f <= (c as u32) && (c as u32) < 0xa0)
}

/// A name that the build system takes for a package: printable, with no path
/// separator, and naming something other than the directory itself or its
/// parent.
pub open spec fn valid_package_name(n: Seq<char>) -> bool {
    &&& !names_nothing(n)
    &&& forall|i: int| 0 <= i < n.len() ==> !is_separator(#[trigger] n[i]) && !is_control(n[i])
}

/// The package name: the one given, else the final segment of `path`; none
/// where that is no valid package name.
pub open spec fn derived_name(path: Seq<char>, name: Option<Seq<char>>) -> Option<Seq<char>> {
    let candidate = match name {
        Some(n) => n,
        None => last_segment(path),
    };
    if valid_package_name(candidate) {
        Some(candidate)
    } else {
        None
    }
}

/// Whether `n` is a valid package name.
pub fn is_valid_package_name(n: &str) -> (r: bool)
    ensures
        r == valid_package_name(n@),
{
    let len = n.unicode_len();
    let nothing = len == 0 || (len == 1 && n.get_char(0) == '.') || (len == 2 && n.get_char(0)
        == '.' && n.get_char(1) == '.');
    proof {
        if len == 1 && n@[0] == '.' {
            assert(n@ =~= seq!['.']);
        }
        if len == 2 && n@[0] == '.' && n@[1] == '.' {
            assert(n@ =~= seq!['.', '.']);
        }
    }
    if nothing {
        return false;
    }
    let mut i: usize = 0;
    while i < len
        invariant
            i <= len,
            len == n@.len(),
            forall|j: int| 0 <= j < i ==> !is_separator(#[trigger] n@[j]) && !is_control(n@[j]),
        decreases len - i,
    {
        let c = n.get_char(i);
        let code = c as u32;
        if c == '/' || c == '\\' || code < 0x20 || (0x7f <= code && code < 0xa0) {
            assert(is_separator(n@[i as int]) || is_control(n@[i as int]));
            return false;
        }
        i = i + 1;
    }
    true
}

/// The final segment of `p`.
pub fn file_name(p: &str) -> (r: &str)
    ensures
        r@ == last_segment(p@),
{
    let len = p.unicode_len();
    let mut i: usize = len;
    assert(p@.subrange(0, len as int) =~= p@);
    assert(p@.subrange(len as int, len as int) =~= Seq::<char>::empty());
    assert(last_segment(p@) =~= last_segment(p@) + Seq::<char>::empty());
    while i > 0 && p.get_char(i - 1) != '/'
        invariant
            i <= len,
            len == p@.len(),
            last_segment(p@) == last_segment(p@.subrange(0, i as int)) + p@.subrange(
                i as int,
                len as int,
            ),
        decreases i,
    {
        proof {
            let q = p@.subrange(0, i as int);
            assert(q.drop_last() =~= p@.subrange(0, i - 1));
            assert(p@.subrange(i - 1, len as int) =~= seq![q.last()] + p@.subrange(
                i as int,
                len as int,
            ));
            assert(last_segment(q) == last_segment(q.drop_last()).push(q.last()));
            assert(last_segment(p@) =~= last_segment(p@.subrange(0, i - 1)) + p@.subrange(
                i - 1,
                len as int,
            ));
        }
        i = i - 1;
    }
    proof {
        let q = p@.subrange(0, i as int);
        if i > 0 {
            assert(q.last() == '/');
        }
        assert(last_segment(q) =~= Seq::<char>::empty());
        assert(last_segment(p@) =~= p@.subrange(i as int, len as int));
    }
    p.substring_char(i, len)
}

/// The package name for `opts`: `opts.name` where given, else the final
/// segment of `path`; an error where that is no valid package name.
pub fn get_name(path: &str, opts: &NewOptions) -> (r: Result<String, BardockError>)
    ensures
        match derived_name(path@, option_view(opts.name)) {
            Some(n) => r is Ok && r->Ok_0@ == n,
            None => r == Err::<String, BardockError>(BardockError::InvalidPathForName),
        },
{
    let candidate = match &opts.name {
        Some(n) => n.clone(),
        None => file_name(path).to_owned(),
    };
    if is_valid_package_name(candidate.as_str()) {
        Ok(candidate)
    } else {
        Err(BardockError::InvalidPathForName)
    }
}

/// The final segment of a path that ends in segment `s` (after a separator,
/// or as the whole path) is `s`.
pub proof fn lemma_last_segment_of(prefix: Seq<char>, s: Seq<char>)
    requires
        prefix.len() == 0 || prefix.last() == '/',
        forall|i: int| 0 <= i < s.len() ==> s[i] != '/',
    ensures
        last_segment(prefix + s) == s,
    decreases s.len(),
{
    if s.len() == 0 {
        assert(prefix + s =~= prefix);
    } else {
        lemma_last_segment_of(prefix, s.drop_last());
        assert((prefix + s).drop_last() =~= prefix + s.drop_last());
        assert((prefix + s).last() == s.last());
        assert(s.drop_last().push(s.last()) =~= s);
    }
}

/// Without a name given, the package name is the final segment `s` of the
/// path where it is a valid name; a path that ends in a separator gives none.
pub proof fn lemma_derived_name(prefix: Seq<char>, s: Seq<char>)
    requires
        prefix.len() == 0 || prefix.last() == '/',
        forall|i: int| 0 <= i < s.len() ==> s[i] != '/',
    ensures
        valid_package_name(s) ==> derived_name(prefix + s, None) == Some(s),
        derived_name(prefix + s + seq!['/'], None) is None,
{
    lemma_last_segment_of(prefix, s);
    assert((prefix + s + seq!['/']).last() == '/');
}

/// A subcommand with its arguments.
#[derive(Debug)]
pub enum Command {
    /// `new <path> [--name <name>]`: create an extension project.
    New { path: String, name: Option<String> },
    /// `test <arg1> [arg2]`: accepted and ignored.
    Test { arg1: String, arg2: Option<String> },
}

/// The parsed command line.
#[derive(Debug)]
pub struct Cli {
    pub command: Command,
}

/// Reading the arguments of a subcommand by name.
pub trait ArgMatchesExt {
    /// The value of argument `name`, where it was given.
    spec fn spec_value_of(&self, name: Seq<char>) -> Option<Seq<char>>;

    fn _value_of(&self, name: &str) -> (r: Option<String>)
        ensures
            option_view(r) == self.spec_value_of(name@),
    ;

    /// The value of argument `name` as a path resolved against the working
    /// directory.
    fn value_of_path(&self, name: &str, config: &Config) -> (r: Option<String>)
        ensures
            match self.spec_value_of(name@) {
                Some(p) => r is Some && r->Some_0@ == join_path(config@, p),
                None => r is None,
            },
    {
        match self._value_of(name) {
            Some(p) => Some(config.join(p.as_str())),
            None => None,
        }
    }

    /// The options of a `new` subcommand: its `path` resolved against the
    /// working directory, and its `name`; a usage error where no path was given.
    fn new_options(&self, config: &Config) -> (r: Result<NewOptions, BardockError>)
        ensures
            match self.spec_value_of("path"@) {
                Some(p) => r is Ok && r->Ok_0.path@ == join_path(config@, p) && option_view(
                    r->Ok_0.name,
                ) == self.spec_value_of("name"@),
                None => r == Err::<NewOptions, BardockError>(BardockError::Usage),
            },
    {
        match self.value_of_path("path", config) {
            Some(path) => NewOptions::new(path, self._value_of("name")),
            None => Err(BardockError::Usage),
        }
    }
}

impl ArgMatchesExt for Command {
    open spec fn spec_value_of(&self, name: Seq<char>) -> Option<Seq<char>> {
        match self {
            Command::New { path, name: n } => if name == "path"@ {
                Some(path@)
            } else if name == "name"@ {
                option_view(*n)
            } else {
                None
            },
            Command::Test { arg1, arg2 } => if name == "arg1"@ {
                Some(arg1@)
            } else if name == "arg2"@ {
                option_view(*arg2)
            } else {
                None
            },
        }
    }

    fn _value_of(&self, name: &str) -> (r: Option<String>) {
        let key = name.to_owned();
        match self {
            Command::New { path, name: n } => {
                if key == "path".to_owned() {
                    Some(path.clone())
                } else if key == "name".to_owned() {
                    match n {
                        Some(v) => Some(v.clone()),
                        None => None,
                    }
                } else {
                    None
                }
            },
            Command::Test { arg1, arg2 } => {
                if key == "arg1".to_owned() {
                    Some(arg1.clone())
                } else if key == "arg2".to_owned() {
                    match arg2 {
                        Some(v) => Some(v.clone()),
                        None => None,
                    }
                } else {
                    None
                }
            },
        }
    }
}

/// Where a new project goes, and its package name.
#[derive(Debug)]
pub struct Project {
    pub dir: String,
    pub name: String,
}

/// Resolves the project directory and the package name; fails where no name
/// can be taken from the path.
pub fn prepare(opts: &NewOptions, config: &Config) -> (r: Result<Project, BardockError>)
    ensures
        match derived_name(opts.path@, option_view(opts.name)) {
            Some(n) => r is Ok && r->Ok_0.name@ == n && r->Ok_0.dir@ == join_path(
                config@,
                opts.path@,
            ),
            None => r == Err::<Project, BardockError>(BardockError::InvalidPathForName),
        },
{
    let name = get_name(opts.path.as_str(), opts)?;
    Ok(Project { dir: config.join(opts.path.as_str()), name })
}

impl Project {
    /// The manifest that the project generator writes.
    pub fn manifest_path(&self) -> (r: String)
        ensures
            r@ == join_path(self.dir@, "Cargo.toml"@),
    {
        join_str(self.dir.as_str(), "Cargo.toml")
    }

    /// The library entry point.
    pub fn lib_path(&self) -> (r: String)
        ensures
            r@ == join_path(self.dir@, "src/lib.rs"@),
    {
        join_str(self.dir.as_str(), "src/lib.rs")
    }

    /// The executable entry point that the project generator leaves.
    pub fn main_path(&self) -> (r: String)
        ensures
            r@ == join_path(self.dir@, "src/main.rs"@),
    {
        join_str(self.dir.as_str(), "src/main.rs")
    }

    /// The directory of the linker options file.
    pub fn cargo_config_dir(&self) -> (r: String)
        ensures
            r@ == join_path(self.dir@, ".cargo"@),
    {
        join_str(self.dir.as_str(), ".cargo")
    }

    /// The linker options file.
    pub fn cargo_config_path(&self) -> (r: String)
        ensures
            r@ == join_path(self.dir@, ".cargo/config"@),
    {
        join_str(self.dir.as_str(), ".cargo/config")
    }
}

/// What the run makes of the project generator, given `Err` with the reason
/// where it could not be started, else whether it succeeded and its standard
/// error.
pub open spec fn generator_result(launch: Result<(bool, String), String>) -> Result<(), BardockError> {
    match launch {
        Err(m) => Err(BardockError::SubprocessLaunch(m)),
        Ok((true, _)) => Ok(()),
        Ok((false, e)) => Err(BardockError::SubprocessFailed(e)),
    }
}

/// What the run makes of the project generator: `Err` with the reason where it
/// could not be started; else whether it succeeded, and its standard error.
pub fn generator_outcome(launch: Result<(bool, String), String>) -> (r: Result<(), BardockError>)
    ensures
        r == generator_result(launch),
{
    match launch {
        Err(m) => Err(BardockError::SubprocessLaunch(m)),
        Ok((true, _)) => Ok(()),
        Ok((false, e)) => Err(BardockError::SubprocessFailed(e)),
    }
}

/// A project generator that refuses its target (a directory that exists and
/// is not empty, as on a second run against the same target) fails the run
/// with its standard error, and the process ends with the failure exit code.
pub proof fn lemma_refused_generator_fails_run(stderr: String)
    ensures
        generator_result(Ok((false, stderr))) == Err::<(), BardockError>(
            BardockError::SubprocessFailed(stderr),
        ),
        exit_code_of(BardockError::SubprocessFailed(stderr)) == FAILURE_EXIT_CODE,
        FAILURE_EXIT_CODE == 101,
{
}

/// The library entry point written into a new project: one function that
/// formats the sum of two numbers, and the module that exposes it.
pub const LIB_TEMPLATE: &'static str = "use pyo3::prelude::*;
use pyo3::wrap_pyfunction;

/// Formats the sum of two numbers as string.
#[pyfunction]
fn sum_as_string(a: usize, b: usize) -> PyResult<String> {
    Ok((a + b).to_string())
}

/// A Python module implemented in Rust.
#[pymodule]
fn string_sum(py: Python, m: &PyModule) -> PyResult<()> {
    m.add_wrapped(wrap_pyfunction!(sum_as_string))?;

    Ok(())
}";

/// The linker options that macOS needs to load the library into the host.
pub const MACOS_CARGO_CONFIG: &'static str = "[target.x86_64-apple-darwin]
rustflags = [
  \"-C\", \"link-arg=-undefined\",
  \"-C\", \"link-arg=dynamic_lookup\",
]";

/// Whether a project built on operating system `os` (as `std::env::consts::OS`
/// names it) needs the linker options file.
pub fn needs_linker_config(os: &str) -> (r: bool)
    ensures
        r == (os@ == "macos"@),
{
    let target = "macos".to_owned();
    os.to_owned() == target
}

} // verus!
