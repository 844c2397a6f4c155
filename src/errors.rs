//! What can go wrong in a run, and the exit code of each failure.
use vstd::prelude::*;

verus! {

/// The exit code of a usage error that the argument parser reports.
pub const USAGE_EXIT_CODE: i32 = 1;

/// The exit code of every other failure.
pub const FAILURE_EXIT_CODE: i32 = 101;

/// A failure of a generation run.
#[derive(Debug)]
pub enum BardockError {
    /// Bad or missing arguments.
    Usage,
    /// The project generator could not be started; holds the reason.
    SubprocessLaunch(String),
    /// The project generator exited with a failure; holds its standard error.
    SubprocessFailed(String),
    /// The manifest file could not be read or written.
    ManifestIo,
    /// The manifest text is not a valid document; holds the parser's message.
    ManifestParse(String),
    /// `lib` or `dependencies` is present but is not a table.
    ManifestShape,
    /// The manifest could not be written out as text; holds the reason.
    ManifestSerialize(String),
    /// The library entry point or the linker options could not be written.
    TemplateIo,
    /// The executable entry point could not be removed.
    Cleanup,
    /// No package name can be taken from the path.
    InvalidPathForName,
    /// The working directory of the process cannot be read as text.
    CurrentDir,
}

pub open spec fn exit_code_of(e: BardockError) -> i32 {
    match e {
        BardockError::Usage => USAGE_EXIT_CODE,
        _ => FAILURE_EXIT_CODE,
    }
}

impl BardockError {
    /// The exit code that the process ends with on this failure.
    pub fn exit_code(&self) -> (r: i32)
        ensures
            r == exit_code_of(*self),
    {
        match self {
            BardockError::Usage => USAGE_EXIT_CODE,
            _ => FAILURE_EXIT_CODE,
        }
    }

    /// A one-line description of the failure, without its detail.
    pub fn describe(&self) -> (r: &'static str)
        ensures
            r@ == description_of(*self),
    {
        match self {
            BardockError::Usage => "usage error",
            BardockError::SubprocessLaunch(_) => "failed to call cargo",
            BardockError::SubprocessFailed(_) => "cargo failed",
            BardockError::ManifestIo => "unable to read or write the manifest",
            BardockError::ManifestParse(_) => "the manifest is not a valid document",
            BardockError::ManifestShape => "`lib` or `dependencies` in the manifest is not a table",
            BardockError::ManifestSerialize(_) => "unable to write the manifest as text",
            BardockError::TemplateIo => "unable to write a template file",
            BardockError::Cleanup => "main.rs not found",
            BardockError::InvalidPathForName => "cannot auto-detect package name from path",
            BardockError::CurrentDir => "couldn't get the current directory of the process",
        }
    }
}

/// The one-line description of each kind of failure.
pub open spec fn description_of(e: BardockError) -> Seq<char> {
    match e {
        BardockError::Usage => "usage error"@,
        BardockError::SubprocessLaunch(_) => "failed to call cargo"@,
        BardockError::SubprocessFailed(_) => "cargo failed"@,
        BardockError::ManifestIo => "unable to read or write the manifest"@,
        BardockError::ManifestParse(_) => "the manifest is not a valid document"@,
        BardockError::ManifestShape => "`lib` or `dependencies` in the manifest is not a table"@,
        BardockError::ManifestSerialize(_) => "unable to write the manifest as text"@,
        BardockError::TemplateIo => "unable to write a template file"@,
        BardockError::Cleanup => "main.rs not found"@,
        BardockError::InvalidPathForName => "cannot auto-detect package name from path"@,
        BardockError::CurrentDir => "couldn't get the current directory of the process"@,
    }
}

/// A failure on its way out of the process: the error, if any, and the exit
/// code to end with.
#[derive(Debug)]
pub struct CliError {
    pub error: Option<BardockError>,
    pub exit_code: i32,
}

impl CliError {
    pub fn new(error: BardockError, code: i32) -> (r: CliError)
        ensures
            r.error == Some(error),
            r.exit_code == code,
    {
        CliError { error: Some(error), exit_code: code }
    }

    /// The failure with the exit code that its kind maps to.
    pub fn from_error(error: BardockError) -> (r: CliError)
        ensures
            r.error == Some(error),
            r.exit_code == exit_code_of(error),
    {
        let code = error.exit_code();
        CliError::new(error, code)
    }
}

pub type CliResult = Result<(), CliError>;

} // verus!
