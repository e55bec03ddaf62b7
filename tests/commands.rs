use codeql_zed::commands::QueryExecutor;

#[test]
fn database_command_arguments() {
    let executor = QueryExecutor::new("codeql".to_string());
    let create = executor.create_database_invocation("/src", "/db", "java");
    assert_eq!(create.program, "codeql");
    assert_eq!(
        create.args,
        vec!["database", "create", "/db", "--language", "java", "--source-root", "/src"]
    );
    let upgrade = executor.upgrade_database_invocation("/db");
    assert_eq!(upgrade.args, vec!["database", "upgrade", "/db"]);
    let list = executor.list_databases_invocation("/work");
    assert_eq!(list.args, vec!["database", "list", "--format=json"]);
    assert_eq!(list.working_dir, Some("/work".to_string()));
}

#[test]
fn direct_query_command_arguments() {
    let executor = QueryExecutor::new("codeql".to_string());
    let run = executor.run_query_invocation("/q.ql", "/db");
    assert_eq!(
        run.args,
        vec!["query", "run", "--database", "/db", "/q.ql", "--format=sarif-latest"]
    );
    let eval = executor.quick_eval_invocation("/q.ql", "/db", "isSink");
    assert_eq!(
        eval.args,
        vec!["query", "eval", "--database", "/db", "/q.ql", "--predicate", "isSink"]
    );
}
