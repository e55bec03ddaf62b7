//! Database management and direct query commands of the external tool, with
//! the database passed explicitly on each call.
use vstd::prelude::*;

use vstd::string::StringExecFns;

use crate::tool::{push_arg, ToolInvocation};

verus! {

/// Arguments of a query run against an explicit database.
pub open spec fn run_args(query_path: Seq<char>, database_path: Seq<char>) -> Seq<Seq<char>> {
    seq!["query"@, "run"@, "--database"@, database_path, query_path, "--format=sarif-latest"@]
}

/// Arguments of the evaluation of one predicate of a query.
pub open spec fn quick_eval_args(
    query_path: Seq<char>,
    database_path: Seq<char>,
    predicate: Seq<char>,
) -> Seq<Seq<char>> {
    seq!["query"@, "eval"@, "--database"@, database_path, query_path, "--predicate"@, predicate]
}

/// Arguments of a database listing.
pub open spec fn list_databases_args() -> Seq<Seq<char>> {
    seq!["database"@, "list"@, "--format=json"@]
}

/// Arguments of the creation of a database from a source tree.
pub open spec fn create_database_args(
    source_path: Seq<char>,
    database_path: Seq<char>,
    language: Seq<char>,
) -> Seq<Seq<char>> {
    seq![
        "database"@, "create"@, database_path, "--language"@, language, "--source-root"@,
        source_path,
    ]
}

/// Arguments of a database upgrade.
pub open spec fn upgrade_database_args(database_path: Seq<char>) -> Seq<Seq<char>> {
    seq!["database"@, "upgrade"@, database_path]
}

/// Issues tool commands through the tool at one path.
pub struct QueryExecutor {
    codeql_path: String,
}

impl QueryExecutor {
    /// The path of the external tool.
    pub closed spec fn tool_path(&self) -> Seq<char> {
        self.codeql_path@
    }

    /// An executor for the tool at `codeql_path`.
    pub fn new(codeql_path: String) -> (r: Self)
        ensures
            r.tool_path() == codeql_path@,
    {
        QueryExecutor { codeql_path }
    }

    /// The invocation that runs the query at `query_path` against
    /// `database_path` with structured (SARIF) output.
    pub fn run_query_invocation(&self, query_path: &str, database_path: &str) -> (r:
        ToolInvocation)
        ensures
            r.program@ == self.tool_path(),
            r.args.deep_view() == run_args(query_path@, database_path@),
            r.working_dir is None,
    {
        let mut args: Vec<String> = Vec::new();
        push_arg(&mut args, "query");
        push_arg(&mut args, "run");
        push_arg(&mut args, "--database");
        push_arg(&mut args, database_path);
        push_arg(&mut args, query_path);
        push_arg(&mut args, "--format=sarif-latest");
        assert(args.deep_view() =~= run_args(query_path@, database_path@));
        ToolInvocation { program: self.codeql_path.clone(), args, working_dir: None }
    }

    /// The invocation that evaluates `predicate` of the query at `query_path`
    /// against `database_path`.
    pub fn quick_eval_invocation(
        &self,
        query_path: &str,
        database_path: &str,
        predicate: &str,
    ) -> (r: ToolInvocation)
        ensures
            r.program@ == self.tool_path(),
            r.args.deep_view() == quick_eval_args(query_path@, database_path@, predicate@),
            r.working_dir is None,
    {
        let mut args: Vec<String> = Vec::new();
        push_arg(&mut args, "query");
        push_arg(&mut args, "eval");
        push_arg(&mut args, "--database");
        push_arg(&mut args, database_path);
        push_arg(&mut args, query_path);
        push_arg(&mut args, "--predicate");
        push_arg(&mut args, predicate);
        assert(args.deep_view() =~= quick_eval_args(query_path@, database_path@, predicate@));
        ToolInvocation { program: self.codeql_path.clone(), args, working_dir: None }
    }

    /// The invocation that lists the databases of the workspace at
    /// `workspace_path`, run from that directory.
    pub fn list_databases_invocation(&self, workspace_path: &str) -> (r: ToolInvocation)
        ensures
            r.program@ == self.tool_path(),
            r.args.deep_view() == list_databases_args(),
            r.working_dir is Some && r.working_dir->Some_0@ == workspace_path@,
    {
        let mut args: Vec<String> = Vec::new();
        push_arg(&mut args, "database");
        push_arg(&mut args, "list");
        push_arg(&mut args, "--format=json");
        assert(args.deep_view() =~= list_databases_args());
        ToolInvocation {
            program: self.codeql_path.clone(),
            args,
            working_dir: Some(String::from_str(workspace_path)),
        }
    }

    /// The invocation that creates a database at `database_path` for
    /// `language` from the sources under `source_path`.
    pub fn create_database_invocation(
        &self,
        source_path: &str,
        database_path: &str,
        language: &str,
    ) -> (r: ToolInvocation)
        ensures
            r.program@ == self.tool_path(),
            r.args.deep_view() == create_database_args(source_path@, database_path@, language@),
            r.working_dir is None,
    {
        let mut args: Vec<String> = Vec::new();
        push_arg(&mut args, "database");
        push_arg(&mut args, "create");
        push_arg(&mut args, database_path);
        push_arg(&mut args, "--language");
        push_arg(&mut args, language);
        push_arg(&mut args, "--source-root");
        push_arg(&mut args, source_path);
        assert(args.deep_view() =~= create_database_args(
            source_path@,
            database_path@,
            language@,
        ));
        ToolInvocation { program: self.codeql_path.clone(), args, working_dir: None }
    }

    /// The invocation that upgrades the database at `database_path`.
    pub fn upgrade_database_invocation(&self, database_path: &str) -> (r: ToolInvocation)
        ensures
            r.program@ == self.tool_path(),
            r.args.deep_view() == upgrade_database_args(database_path@),
            r.working_dir is None,
    {
        let mut args: Vec<String> = Vec::new();
        push_arg(&mut args, "database");
        push_arg(&mut args, "upgrade");
        push_arg(&mut args, database_path);
        assert(args.deep_view() =~= upgrade_database_args(database_path@));
        ToolInvocation { program: self.codeql_path.clone(), args, working_dir: None }
    }
}

} // verus!
