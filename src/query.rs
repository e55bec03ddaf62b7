//! Queries, their results, and the executor that turns query operations into
//! invocations of the external tool and interprets what comes back.
use std::time::Duration;
use vstd::prelude::*;
use vstd::string::StringExecFns;

use crate::tool::{
    decimal, decimal_string, push_arg, push_owned_arg, DatabaseProblem, QueryError,
    ToolInvocation, ToolOutput,
};

verus! {

/// Relies on `Clone` for `Duration`, a `Copy` type: the clone equals the
/// original.
pub assume_specification[ <Duration as Clone>::clone ](d: &Duration) -> (r: Duration)
    ensures
        r == *d,
;

/// The file that marks a directory as an analysis database.
pub const DATABASE_METADATA_FILE: &'static str = "codeql-database.yml";

/// Descriptive metadata of a query, taken from its documentation comment.
#[derive(Debug, Clone)]
pub struct QueryMetadata {
    pub name: String,
    pub description: Option<String>,
    pub severity: Option<String>,
    pub tags: Vec<String>,
}

/// A query file to run, with its own timeout in seconds.
#[derive(Debug, Clone)]
pub struct Query {
    pub path: String,
    pub metadata: Option<QueryMetadata>,
    pub timeout: u32,
}

/// The outcome of one query run.
#[derive(Debug, Clone)]
pub struct QueryResult {
    pub query_path: String,
    pub database_path: String,
    pub sarif: Option<SarifResults>,
    pub raw_output: String,
    pub execution_time: Duration,
    pub success: bool,
    pub error_message: Option<String>,
}

/// Top level of the structured results document.
#[derive(Debug, Clone)]
pub struct SarifResults {
    pub version: String,
    pub runs: Vec<SarifRun>,
}

/// One analysis run: the tool that ran and its findings.
#[derive(Debug, Clone)]
pub struct SarifRun {
    pub tool: SarifTool,
    pub results: Vec<SarifResult>,
}

/// The tool of a run.
#[derive(Debug, Clone)]
pub struct SarifTool {
    pub driver: SarifDriver,
}

/// The component of the tool that produced the findings.
#[derive(Debug, Clone)]
pub struct SarifDriver {
    pub name: String,
    pub version: Option<String>,
}

/// One finding.
#[derive(Debug, Clone)]
pub struct SarifResult {
    pub rule_id: String,
    pub message: SarifMessage,
    pub locations: Vec<SarifLocation>,
}

/// The text of a finding.
#[derive(Debug, Clone)]
pub struct SarifMessage {
    pub text: String,
}

/// Where a finding lies.
#[derive(Debug, Clone)]
pub struct SarifLocation {
    pub physical_location: SarifPhysicalLocation,
}

/// A file and, optionally, a region of it.
#[derive(Debug, Clone)]
pub struct SarifPhysicalLocation {
    pub artifact_location: SarifArtifactLocation,
    pub region: Option<SarifRegion>,
}

/// The URI of a file.
#[derive(Debug, Clone)]
pub struct SarifArtifactLocation {
    pub uri: String,
}

/// A source region; lines and columns are 1-based.
#[derive(Debug, Clone)]
pub struct SarifRegion {
    pub start_line: u32,
    pub start_column: Option<u32>,
    pub end_line: Option<u32>,
    pub end_column: Option<u32>,
}

impl QueryResult {
    /// A result reports an error message exactly when it failed, and carries
    /// parsed results only when it succeeded.
    pub open spec fn wf(&self) -> bool {
        &&& self.success <==> self.error_message is None
        &&& !self.success ==> self.sarif is None
    }

    /// Builds the result of a finished run of `query` against `database_path`.
    /// `sarif` is the standard output decoded as structured results, or `None`
    /// where it did not decode; it is kept only when the run succeeded. The raw
    /// standard output is kept either way.
    pub fn from_run(
        query: &Query,
        database_path: String,
        output: ToolOutput,
        execution_time: Duration,
        sarif: Option<SarifResults>,
    ) -> (r: QueryResult)
        ensures
            r.wf(),
            r.query_path@ == query.path@,
            r.database_path@ == database_path@,
            r.raw_output@ == output.stdout@,
            r.execution_time == execution_time,
            r.success == output.success,
            r.success ==> r.sarif == sarif,
            !r.success ==> r.sarif is None,
            !r.success ==> r.error_message == Some(output.stderr),
    {
        let query_path = query.path.clone();
        if output.success {
            QueryResult {
                query_path,
                database_path,
                sarif,
                raw_output: output.stdout,
                execution_time,
                success: true,
                error_message: None,
            }
        } else {
            QueryResult {
                query_path,
                database_path,
                sarif: None,
                raw_output: output.stdout,
                execution_time,
                success: false,
                error_message: Some(output.stderr),
            }
        }
    }
}

/// What a look at a candidate database path found on disk.
#[derive(Debug, Clone, Copy, PartialEq, Eq)]
pub enum DatabaseStatus {
    /// The path does not exist.
    Missing,
    /// The path exists but holds no database metadata file.
    MissingMetadata,
    /// The path exists and holds the metadata file.
    Valid,
}

/// Runs query operations through the external tool against the selected
/// database.
pub struct QueryExecutor {
    codeql_path: String,
    active_database: Option<String>,
    max_paths: u32,
    num_threads: u32,
}

/// Arguments of a query run.
pub open spec fn run_query_args(
    database: Seq<char>,
    threads: u32,
    max_paths: u32,
    timeout: u32,
    query_path: Seq<char>,
) -> Seq<Seq<char>> {
    seq![
        "query"@, "run"@, "--database"@, database, "--format"@, "sarif-latest"@,
        "--threads"@, decimal(threads as nat), "--max-paths"@, decimal(max_paths as nat),
        "--timeout"@, decimal(timeout as nat), query_path,
    ]
}

/// The `file:line:column` position of a quick evaluation.
pub open spec fn eval_position(file: Seq<char>, line: u32, column: u32) -> Seq<char> {
    file + ":"@ + decimal(line as nat) + ":"@ + decimal(column as nat)
}

/// Arguments of a quick evaluation of `predicate` at a position.
pub open spec fn quick_evaluate_args(
    database: Seq<char>,
    predicate: Seq<char>,
    file: Seq<char>,
    line: u32,
    column: u32,
) -> Seq<Seq<char>> {
    seq![
        "query"@, "eval"@, "--database"@, database, "--format"@, "json"@,
        "--quick-eval"@, eval_position(file, line, column), predicate,
    ]
}

/// Arguments of a check-only compilation.
pub open spec fn compile_query_args(query_path: Seq<char>) -> Seq<Seq<char>> {
    seq!["query"@, "compile"@, "--check-only"@, query_path]
}

/// Arguments of an in-place format.
pub open spec fn format_query_args(query_path: Seq<char>) -> Seq<Seq<char>> {
    seq!["query"@, "format"@, "--in-place"@, query_path]
}

impl QueryExecutor {
    /// The path of the external tool.
    pub closed spec fn tool_path(&self) -> Seq<char> {
        self.codeql_path@
    }

    /// The selected database.
    pub closed spec fn database(&self) -> Option<Seq<char>> {
        match self.active_database {
            Some(d) => Some(d@),
            None => None,
        }
    }

    /// The cap on result paths forwarded to the tool.
    pub closed spec fn path_limit(&self) -> u32 {
        self.max_paths
    }

    /// The worker count forwarded to the tool.
    pub closed spec fn thread_count(&self) -> u32 {
        self.num_threads
    }

    /// An executor for the tool at `codeql_path`, with no database selected,
    /// 4 threads and at most 100 result paths.
    pub fn new(codeql_path: String) -> (r: Self)
        ensures
            r.tool_path() == codeql_path@,
            r.database() is None,
            r.path_limit() == 100,
            r.thread_count() == 4,
    {
        QueryExecutor { codeql_path, active_database: None, max_paths: 100, num_threads: 4 }
    }

    /// An executor with the given worker count and result-path cap.
    pub fn with_limits(codeql_path: String, num_threads: u32, max_paths: u32) -> (r: Self)
        requires
            num_threads >= 1,
        ensures
            r.tool_path() == codeql_path@,
            r.database() is None,
            r.path_limit() == max_paths,
            r.thread_count() == num_threads,
    {
        QueryExecutor { codeql_path, active_database: None, max_paths, num_threads }
    }

    /// The path of the external tool.
    pub fn codeql_path(&self) -> (r: &String)
        ensures
            r@ == self.tool_path(),
    {
        &self.codeql_path
    }

    /// The selected database, if any.
    pub fn active_database(&self) -> (r: Option<&String>)
        ensures
            r is None <==> self.database() is None,
            r is Some ==> self.database() == Some(r->Some_0@),
    {
        match &self.active_database {
            Some(d) => Some(d),
            None => None,
        }
    }

    /// Selects `database_path`, given what a look at it found on disk.
    /// A missing path or one without the metadata file is refused, and then
    /// the previous selection stays.
    pub fn set_database(&mut self, database_path: String, status: DatabaseStatus) -> (r: Result<
        (),
        QueryError,
    >)
        ensures
            status == DatabaseStatus::Missing ==> r == Err::<(), QueryError>(
                QueryError::InvalidDatabase(DatabaseProblem::NotFound),
            ),
            status == DatabaseStatus::MissingMetadata ==> r == Err::<(), QueryError>(
                QueryError::InvalidDatabase(DatabaseProblem::MissingMetadata),
            ),
            status == DatabaseStatus::Valid ==> r is Ok,
            r is Ok ==> final(self).database() == Some(database_path@),
            r is Err ==> final(self).database() == old(self).database(),
            final(self).tool_path() == old(self).tool_path(),
            final(self).path_limit() == old(self).path_limit(),
            final(self).thread_count() == old(self).thread_count(),
    {
        match status {
            DatabaseStatus::Missing => Err(QueryError::InvalidDatabase(DatabaseProblem::NotFound)),
            DatabaseStatus::MissingMetadata => Err(
                QueryError::InvalidDatabase(DatabaseProblem::MissingMetadata),
            ),
            DatabaseStatus::Valid => {
                self.active_database = Some(database_path);
                Ok(())
            },
        }
    }

    /// The invocation that runs `query` against the selected database with
    /// structured (SARIF) output, forwarding the thread count, the path cap
    /// and the query's timeout. Fails without any invocation when no database
    /// is selected.
    pub fn query_run_invocation(&self, query: &Query) -> (r: Result<ToolInvocation, QueryError>)
        ensures
            self.database() is None <==> r is Err,
            r is Err ==> r == Err::<ToolInvocation, QueryError>(QueryError::NoDatabaseSelected),
            r is Ok ==> {
                let inv = r->Ok_0;
                &&& inv.program@ == self.tool_path()
                &&& inv.args.deep_view() == run_query_args(
                    self.database()->Some_0,
                    self.thread_count(),
                    self.path_limit(),
                    query.timeout,
                    query.path@,
                )
                &&& inv.working_dir is None
            },
    {
        let database = match &self.active_database {
            Some(d) => d,
            None => {
                return Err(QueryError::NoDatabaseSelected);
            },
        };
        let mut args: Vec<String> = Vec::new();
        push_arg(&mut args, "query");
        push_arg(&mut args, "run");
        push_arg(&mut args, "--database");
        push_owned_arg(&mut args, database.clone());
        push_arg(&mut args, "--format");
        push_arg(&mut args, "sarif-latest");
        push_arg(&mut args, "--threads");
        push_owned_arg(&mut args, decimal_string(self.num_threads));
        push_arg(&mut args, "--max-paths");
        push_owned_arg(&mut args, decimal_string(self.max_paths));
        push_arg(&mut args, "--timeout");
        push_owned_arg(&mut args, decimal_string(query.timeout));
        push_owned_arg(&mut args, query.path.clone());
        assert(args.deep_view() =~= run_query_args(
            database@,
            self.num_threads,
            self.max_paths,
            query.timeout,
            query.path@,
        ));
        Ok(ToolInvocation { program: self.codeql_path.clone(), args, working_dir: None })
    }

    /// The invocation that quick-evaluates `predicate` at
    /// `context_file:line:column` against the selected database, with simple
    /// JSON output. Fails without any invocation when no database is
    /// selected.
    pub fn quick_evaluate_invocation(
        &self,
        predicate: &str,
        context_file: &str,
        line: u32,
        column: u32,
    ) -> (r: Result<ToolInvocation, QueryError>)
        ensures
            self.database() is None <==> r is Err,
            r is Err ==> r == Err::<ToolInvocation, QueryError>(QueryError::NoDatabaseSelected),
            r is Ok ==> {
                let inv = r->Ok_0;
                &&& inv.program@ == self.tool_path()
                &&& inv.args.deep_view() == quick_evaluate_args(
                    self.database()->Some_0,
                    predicate@,
                    context_file@,
                    line,
                    column,
                )
                &&& inv.working_dir is None
            },
    {
        let database = match &self.active_database {
            Some(d) => d,
            None => {
                return Err(QueryError::NoDatabaseSelected);
            },
        };
        let mut position = String::from_str(context_file);
        position.append(":");
        position.append(decimal_string(line).as_str());
        position.append(":");
        position.append(decimal_string(column).as_str());
        let mut args: Vec<String> = Vec::new();
        push_arg(&mut args, "query");
        push_arg(&mut args, "eval");
        push_arg(&mut args, "--database");
        push_owned_arg(&mut args, database.clone());
        push_arg(&mut args, "--format");
        push_arg(&mut args, "json");
        push_arg(&mut args, "--quick-eval");
        push_owned_arg(&mut args, position);
        push_arg(&mut args, predicate);
        assert(args.deep_view() =~= quick_evaluate_args(
            database@,
            predicate@,
            context_file@,
            line,
            column,
        ));
        Ok(ToolInvocation { program: self.codeql_path.clone(), args, working_dir: None })
    }

    /// The invocation that checks that the query at `query_path` compiles.
    /// Compilation needs no database.
    pub fn compile_query_invocation(&self, query_path: &str) -> (r: ToolInvocation)
        ensures
            r.program@ == self.tool_path(),
            r.args.deep_view() == compile_query_args(query_path@),
            r.working_dir is None,
    {
        let mut args: Vec<String> = Vec::new();
        push_arg(&mut args, "query");
        push_arg(&mut args, "compile");
        push_arg(&mut args, "--check-only");
        push_arg(&mut args, query_path);
        assert(args.deep_view() =~= compile_query_args(query_path@));
        ToolInvocation { program: self.codeql_path.clone(), args, working_dir: None }
    }

    /// The invocation that formats the query file at `query_path` in place.
    /// Fails without any invocation when no database is selected.
    pub fn format_query_invocation(&self, query_path: &str) -> (r: Result<
        ToolInvocation,
        QueryError,
    >)
        ensures
            self.database() is None <==> r is Err,
            r is Err ==> r == Err::<ToolInvocation, QueryError>(QueryError::NoDatabaseSelected),
            r is Ok ==> {
                let inv = r->Ok_0;
                &&& inv.program@ == self.tool_path()
                &&& inv.args.deep_view() == format_query_args(query_path@)
                &&& inv.working_dir is None
            },
    {
        if self.active_database.is_none() {
            return Err(QueryError::NoDatabaseSelected);
        }
        let mut args: Vec<String> = Vec::new();
        push_arg(&mut args, "query");
        push_arg(&mut args, "format");
        push_arg(&mut args, "--in-place");
        push_arg(&mut args, query_path);
        assert(args.deep_view() =~= format_query_args(query_path@));
        Ok(ToolInvocation { program: self.codeql_path.clone(), args, working_dir: None })
    }
}

/// The second phase of formatting: the text read back from the formatted
/// file, or the read failure as a `PostFormatRead` error, which tells it
/// apart from a failure of the formatter itself.
pub fn formatted_text(read_back: Result<String, String>) -> (r: Result<String, QueryError>)
    ensures
        read_back is Ok ==> r is Ok && r->Ok_0@ == read_back->Ok_0@,
        read_back is Err ==> r is Err && r->Err_0 == QueryError::PostFormatRead(read_back->Err_0),
{
    match read_back {
        Ok(text) => Ok(text),
        Err(e) => Err(QueryError::PostFormatRead(e)),
    }
}

} // verus!

pub use crate::history::{QueryHistory, QueryHistoryEntry};
