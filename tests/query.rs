use std::time::Duration;

use codeql_zed::query::{
    formatted_text, DatabaseStatus, Query, QueryExecutor, QueryHistory, QueryHistoryEntry,
    QueryMetadata, QueryResult, SarifResults,
};
use codeql_zed::tool::{DatabaseProblem, QueryError, ToolOutput};

fn entry(path: &str, timestamp: &str) -> QueryHistoryEntry {
    QueryHistoryEntry {
        query: Query {
            path: path.to_string(),
            metadata: None,
            timeout: 60,
        },
        database: "/test-db".to_string(),
        timestamp: timestamp.to_string(),
        execution_time: Duration::from_secs(5),
        success: true,
    }
}

fn timestamps(entries: &[QueryHistoryEntry]) -> Vec<String> {
    entries.iter().map(|e| e.timestamp.clone()).collect()
}

fn output(success: bool, stdout: &str, stderr: &str) -> ToolOutput {
    ToolOutput {
        success,
        stdout: stdout.to_string(),
        stderr: stderr.to_string(),
    }
}

fn simple_query() -> Query {
    Query {
        path: "/q.ql".to_string(),
        metadata: None,
        timeout: 300,
    }
}

fn executor_with_db() -> QueryExecutor {
    let mut executor = QueryExecutor::new("/usr/bin/codeql".to_string());
    executor
        .set_database("/db".to_string(), DatabaseStatus::Valid)
        .unwrap();
    executor
}

#[test]
fn test_query_creation() {
    let query = Query {
        path: "/path/to/query.ql".to_string(),
        metadata: Some(QueryMetadata {
            name: "Test Query".to_string(),
            description: Some("A test query".to_string()),
            severity: Some("warning".to_string()),
            tags: vec!["security".to_string()],
        }),
        timeout: 300,
    };

    assert_eq!(query.timeout, 300);
    assert!(query.metadata.is_some());
}

#[test]
fn test_query_history() {
    let mut history = QueryHistory::new(10);

    let entry = QueryHistoryEntry {
        query: Query {
            path: "/test.ql".to_string(),
            metadata: None,
            timeout: 60,
        },
        database: "/test-db".to_string(),
        timestamp: "2024-01-01T00:00:00Z".to_string(),
        execution_time: Duration::from_secs(5),
        success: true,
    };

    history.add_entry(entry.clone());
    assert_eq!(history.entries().len(), 1);

    let recent = history.get_recent(1);
    assert_eq!(recent.len(), 1);
    assert_eq!(recent[0].timestamp, entry.timestamp);
}

#[test]
fn history_evicts_oldest_first() {
    let mut history = QueryHistory::new(2);
    history.add_entry(entry("/a.ql", "A"));
    history.add_entry(entry("/b.ql", "B"));
    history.add_entry(entry("/c.ql", "C"));
    assert_eq!(timestamps(history.entries()), vec!["B", "C"]);
    assert_eq!(history.max_entries(), 2);
}

#[test]
fn history_keeps_last_inserted_after_overflow() {
    let mut history = QueryHistory::new(3);
    for i in 0..8 {
        history.add_entry(entry("/q.ql", &format!("t{}", i)));
        assert!(history.entries().len() <= 3);
    }
    assert_eq!(timestamps(history.entries()), vec!["t5", "t6", "t7"]);
}

#[test]
fn history_with_zero_capacity_stays_empty() {
    let mut history = QueryHistory::new(0);
    history.add_entry(entry("/q.ql", "A"));
    assert!(history.entries().is_empty());
}

#[test]
fn get_recent_windows() {
    let mut history = QueryHistory::new(10);
    for t in ["A", "B", "C", "D"] {
        history.add_entry(entry("/q.ql", t));
    }
    assert_eq!(timestamps(history.get_recent(10)), vec!["A", "B", "C", "D"]);
    assert_eq!(timestamps(history.get_recent(4)), vec!["A", "B", "C", "D"]);
    assert!(history.get_recent(0).is_empty());
    assert_eq!(timestamps(history.get_recent(2)), vec!["C", "D"]);
    assert_eq!(history.entries().len(), 4);
}

#[test]
fn clear_keeps_capacity() {
    let mut history = QueryHistory::new(5);
    history.add_entry(entry("/q.ql", "A"));
    history.clear();
    assert!(history.entries().is_empty());
    assert_eq!(history.max_entries(), 5);
}

#[test]
fn restored_history_keeps_entries() {
    let saved = vec![entry("/a.ql", "A"), entry("/b.ql", "B")];
    let history = QueryHistory::from_entries(saved, 2);
    assert_eq!(timestamps(history.entries()), vec!["A", "B"]);
}

#[test]
fn restored_history_truncates_to_most_recent() {
    let saved = vec![entry("/a.ql", "A"), entry("/b.ql", "B"), entry("/c.ql", "C")];
    let history = QueryHistory::from_entries(saved, 2);
    assert_eq!(timestamps(history.entries()), vec!["B", "C"]);
    assert_eq!(history.max_entries(), 2);
}

#[test]
fn run_without_database_is_refused() {
    let executor = QueryExecutor::new("/usr/bin/codeql".to_string());
    assert_eq!(
        executor.query_run_invocation(&simple_query()).unwrap_err(),
        QueryError::NoDatabaseSelected
    );
    assert_eq!(
        executor
            .quick_evaluate_invocation("p", "/f.ql", 1, 1)
            .unwrap_err(),
        QueryError::NoDatabaseSelected
    );
}

#[test]
fn run_invocation_arguments() {
    let executor = executor_with_db();
    let inv = executor.query_run_invocation(&simple_query()).unwrap();
    assert_eq!(inv.program, "/usr/bin/codeql");
    assert_eq!(
        inv.args,
        vec![
            "query",
            "run",
            "--database",
            "/db",
            "--format",
            "sarif-latest",
            "--threads",
            "4",
            "--max-paths",
            "100",
            "--timeout",
            "300",
            "/q.ql"
        ]
    );
    assert_eq!(inv.working_dir, None);
}

#[test]
fn run_invocation_forwards_limits() {
    let mut executor = QueryExecutor::with_limits("codeql".to_string(), 16, 2500);
    executor
        .set_database("/db".to_string(), DatabaseStatus::Valid)
        .unwrap();
    let inv = executor.query_run_invocation(&simple_query()).unwrap();
    assert_eq!(inv.args[7], "16");
    assert_eq!(inv.args[9], "2500");
}

#[test]
fn quick_evaluate_invocation_arguments() {
    let executor = executor_with_db();
    let inv = executor
        .quick_evaluate_invocation("isSource", "/src/a.ql", 12, 7)
        .unwrap();
    assert_eq!(
        inv.args,
        vec![
            "query",
            "eval",
            "--database",
            "/db",
            "--format",
            "json",
            "--quick-eval",
            "/src/a.ql:12:7",
            "isSource"
        ]
    );
}

#[test]
fn compile_needs_no_database() {
    let executor = QueryExecutor::new("codeql".to_string());
    let inv = executor.compile_query_invocation("/q.ql");
    assert_eq!(inv.program, "codeql");
    assert_eq!(inv.args, vec!["query", "compile", "--check-only", "/q.ql"]);
}

#[test]
fn format_invocation_arguments() {
    let executor = executor_with_db();
    let inv = executor.format_query_invocation("/q.ql").unwrap();
    assert_eq!(inv.program, "/usr/bin/codeql");
    assert_eq!(inv.args, vec!["query", "format", "--in-place", "/q.ql"]);
    assert_eq!(inv.working_dir, None);
}

#[test]
fn format_without_database_is_refused() {
    let executor = QueryExecutor::new("codeql".to_string());
    assert_eq!(
        executor.format_query_invocation("/q.ql").unwrap_err(),
        QueryError::NoDatabaseSelected
    );
}

#[test]
fn select_database_outcomes() {
    let mut executor = QueryExecutor::new("codeql".to_string());
    assert_eq!(
        executor.set_database("/missing".to_string(), DatabaseStatus::Missing),
        Err(QueryError::InvalidDatabase(DatabaseProblem::NotFound))
    );
    assert_eq!(executor.active_database(), None);
    assert_eq!(
        executor.set_database("/plain".to_string(), DatabaseStatus::MissingMetadata),
        Err(QueryError::InvalidDatabase(DatabaseProblem::MissingMetadata))
    );
    assert_eq!(executor.active_database(), None);
    assert_eq!(
        executor.set_database("/db1".to_string(), DatabaseStatus::Valid),
        Ok(())
    );
    assert_eq!(executor.active_database().unwrap(), "/db1");
    assert!(executor
        .set_database("/gone".to_string(), DatabaseStatus::Missing)
        .is_err());
    assert_eq!(executor.active_database().unwrap(), "/db1");
}

#[test]
fn successful_run_keeps_parsed_results() {
    let stdout = r#"{"version":"2.1.0","runs":[]}"#;
    let parsed = SarifResults {
        version: "2.1.0".to_string(),
        runs: vec![],
    };
    let result = QueryResult::from_run(
        &simple_query(),
        "/db".to_string(),
        output(true, stdout, ""),
        Duration::from_millis(1500),
        Some(parsed),
    );
    assert!(result.success);
    assert_eq!(result.error_message, None);
    let sarif = result.sarif.unwrap();
    assert_eq!(sarif.version, "2.1.0");
    assert!(sarif.runs.is_empty());
    assert_eq!(result.raw_output, stdout);
    assert_eq!(result.query_path, "/q.ql");
    assert_eq!(result.database_path, "/db");
    assert_eq!(result.execution_time, Duration::from_millis(1500));
}

#[test]
fn failed_run_reports_stderr() {
    let parsed = SarifResults {
        version: "2.1.0".to_string(),
        runs: vec![],
    };
    let result = QueryResult::from_run(
        &simple_query(),
        "/db".to_string(),
        output(false, "", "syntax error at line 4"),
        Duration::from_secs(1),
        Some(parsed),
    );
    assert!(!result.success);
    assert_eq!(
        result.error_message,
        Some("syntax error at line 4".to_string())
    );
    assert!(result.sarif.is_none());
}

#[test]
fn unparseable_output_is_not_a_failure() {
    let result = QueryResult::from_run(
        &simple_query(),
        "/db".to_string(),
        output(true, "not json", ""),
        Duration::from_secs(1),
        None,
    );
    assert!(result.success);
    assert!(result.sarif.is_none());
    assert_eq!(result.error_message, None);
    assert_eq!(result.raw_output, "not json");
}

#[test]
fn tool_output_interpretation() {
    assert_eq!(output(true, "rows", "").into_stdout(), Ok("rows".to_string()));
    assert_eq!(
        output(false, "rows", "bad").into_stdout(),
        Err(QueryError::ToolExecution("bad".to_string()))
    );
    assert_eq!(output(true, "", "").into_unit(), Ok(()));
    assert_eq!(
        output(false, "", "type error").into_unit(),
        Err(QueryError::ToolExecution("type error".to_string()))
    );
}

#[test]
fn format_read_back_failure_is_distinct() {
    assert_eq!(
        formatted_text(Ok("select 1".to_string())),
        Ok("select 1".to_string())
    );
    assert_eq!(
        formatted_text(Err("permission denied".to_string())),
        Err(QueryError::PostFormatRead("permission denied".to_string()))
    );
}
