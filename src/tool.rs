//! Invocations of the external tool and the outcomes they produce.
use vstd::prelude::*;
use vstd::string::StringExecFns;

verus! {

/// The character of a single decimal digit.
pub open spec fn digit_char(d: nat) -> char {
    if d == 0 {
        '0'
    } else if d == 1 {
        '1'
    } else if d == 2 {
        '2'
    } else if d == 3 {
        '3'
    } else if d == 4 {
        '4'
    } else if d == 5 {
        '5'
    } else if d == 6 {
        '6'
    } else if d == 7 {
        '7'
    } else if d == 8 {
        '8'
    } else {
        '9'
    }
}

/// The plain decimal rendering of a natural number, without sign or padding.
pub open spec fn decimal(n: nat) -> Seq<char>
    decreases n,
{
    if n < 10 {
        seq![digit_char(n)]
    } else {
        decimal(n / 10).push(digit_char(n % 10))
    }
}

/// Relies on `ToString` for `u32` (through its `Display` impl), which writes
/// an unsigned integer in plain decimal digits.
#[verifier::external_body]
pub(crate) fn decimal_string(n: u32) -> (r: String)
    ensures
        r@ == decimal(n as nat),
{
    n.to_string()
}

/// Appends a copy of `s` as one more argument.
pub(crate) fn push_arg(args: &mut Vec<String>, s: &str)
    ensures
        final(args).deep_view() == old(args).deep_view().push(s@),
{
    args.push(String::from_str(s));
    assert(final(args).deep_view() =~= old(args).deep_view().push(s@));
}

/// Appends `s` itself as one more argument.
pub(crate) fn push_owned_arg(args: &mut Vec<String>, s: String)
    ensures
        final(args).deep_view() == old(args).deep_view().push(s@),
{
    let ghost v = s@;
    args.push(s);
    assert(final(args).deep_view() =~= old(args).deep_view().push(v));
}

/// A fully spelled-out run of the external tool: the program, its argument
/// list (never passed through a shell) and, where it matters, the working
/// directory. Standard output and standard error are always captured.
#[derive(Debug, Clone)]
pub struct ToolInvocation {
    pub program: String,
    pub args: Vec<String>,
    pub working_dir: Option<String>,
}

/// What a finished run of the external tool reported: whether it exited
/// with status zero, and the text captured from its two output streams.
#[derive(Debug, Clone)]
pub struct ToolOutput {
    pub success: bool,
    pub stdout: String,
    pub stderr: String,
}

/// Why a database could not be selected.
#[derive(Debug, Clone, Copy, PartialEq, Eq)]
pub enum DatabaseProblem {
    /// The path does not exist.
    NotFound,
    /// The path exists but holds no `codeql-database.yml`.
    MissingMetadata,
}

/// The failures of the query subsystem, one variant per kind.
#[derive(Debug, Clone, PartialEq, Eq)]
pub enum QueryError {
    /// The tool could not be started at all.
    ToolInvocation(String),
    /// The tool ran and exited non-zero; holds its standard error.
    ToolExecution(String),
    /// The selected path is not a usable database.
    InvalidDatabase(DatabaseProblem),
    /// The operation needs a database and none is selected.
    NoDatabaseSelected,
    /// Structured content could not be decoded or encoded.
    Parse(String),
    /// The formatter succeeded but the formatted file could not be read back.
    PostFormatRead(String),
    /// A file could not be read or written, or a path is not valid UTF-8.
    Io(String),
}

impl ToolOutput {
    /// The standard output of a successful run, or the standard error of a
    /// failed one as a `ToolExecution` error.
    pub fn into_stdout(self) -> (r: Result<String, QueryError>)
        ensures
            self.success ==> r is Ok && r->Ok_0@ == self.stdout@,
            !self.success ==> r is Err && r->Err_0 == QueryError::ToolExecution(self.stderr),
    {
        if self.success {
            Ok(self.stdout)
        } else {
            Err(QueryError::ToolExecution(self.stderr))
        }
    }

    /// Success without a payload, or the standard error of a failed run as a
    /// `ToolExecution` error.
    pub fn into_unit(self) -> (r: Result<(), QueryError>)
        ensures
            self.success <==> r is Ok,
            !self.success ==> r == Err::<(), QueryError>(QueryError::ToolExecution(self.stderr)),
    {
        if self.success {
            Ok(())
        } else {
            Err(QueryError::ToolExecution(self.stderr))
        }
    }
}

} // verus!
