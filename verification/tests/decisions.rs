use unheard::decisions::create_decision_log;
use unheard::git::CommitError;
use unheard::procedure::{
    PlannedTask, Procedure, ProcedureError, Reply, Report, Request, Step, Task,
};

/// Carries out a procedure without touching anything: every task succeeds
/// and the commit ends as `commit` says.
fn carry_out(plan: Procedure, commit: Result<String, CommitError>) -> Result<Report, ProcedureError> {
    let mut commit = Some(commit);
    let mut step = plan.begin();
    loop {
        match step {
            Step::Finished { outcome } => return outcome,
            Step::Ask { run, request } => {
                let reply = match request {
                    Request::Perform { .. } => Reply::Done,
                    Request::ProbeLargeObjects => Reply::Probed { tool_run: None },
                    Request::Commit { .. } => Reply::Committed { outcome: commit.take().unwrap() },
                };
                step = run.advance(reply);
            }
        }
    }
}

fn store_unavailable() -> Result<String, CommitError> {
    Err(CommitError::NotFound { cause: "could not find repository".to_string() })
}

fn directory_of(task: &PlannedTask) -> &str {
    match &task.task {
        Task::EnsureDirectory { path } => path,
        other => panic!("expected a directory, got {other:?}"),
    }
}

fn file_of(task: &PlannedTask) -> (&str, &str) {
    match &task.task {
        Task::WriteFile { path, content } => (path, content),
        other => panic!("expected a file, got {other:?}"),
    }
}

#[test]
fn test_create_decision_log_success() {
    let content = "---\nid: dec-test-1\ntitle: Test Decision\nstatus: ready\n---\n\n# Test Decision\n\nThis is a test decision log.\n";

    let result = create_decision_log(content, "2026-02-04-test-decision.md");

    assert!(result.is_ok());
    let plan = result.unwrap();
    assert_eq!(plan.paths, vec!["decisions/2026-02-04-test-decision.md".to_string()]);
    assert_eq!(plan.tasks.len(), 2);
    assert_eq!(file_of(&plan.tasks[1]), ("decisions/2026-02-04-test-decision.md", content));
    assert_eq!(plan.commit_message, "Create decision: 2026-02-04-test-decision.md");
    assert!(!plan.commit_required);

    let report = carry_out(plan, Ok("c0ffee".to_string())).unwrap();
    assert_eq!(report.written_paths(), vec!["decisions/2026-02-04-test-decision.md".to_string()]);
}

#[test]
fn test_create_decision_log_creates_directory() {
    let result = create_decision_log("# Test", "test.md");

    assert!(result.is_ok());
    let plan = result.unwrap();
    assert_eq!(directory_of(&plan.tasks[0]), "decisions");
    assert_eq!(plan.tasks[0].failure, "Failed to create decisions directory: ");
    assert_eq!(plan.tasks[1].failure, "Failed to write decision log: ");
}

#[test]
fn test_create_decision_log_empty_content() {
    let result = create_decision_log("   ", "test.md");

    assert!(result.is_err());
    assert!(result.unwrap_err().contains("Content cannot be empty"));
}

#[test]
fn test_create_decision_log_empty_filename() {
    let result = create_decision_log("# Test", "");

    assert!(result.is_err());
    assert!(result.unwrap_err().contains("Filename cannot be empty"));
}

#[test]
fn test_create_decision_log_invalid_extension() {
    let result = create_decision_log("# Test", "test.txt");

    assert!(result.is_err());
    assert!(result.unwrap_err().contains("must end with .md"));
}

#[test]
fn test_create_decision_log_git_failure_does_not_fail() {
    let plan = create_decision_log("# Test", "test.md").unwrap();

    let result = carry_out(plan, store_unavailable());

    assert!(result.is_ok());
    assert_eq!(result.unwrap().written_paths(), vec!["decisions/test.md".to_string()]);
}

#[test]
fn decision_checks_run_in_order() {
    assert_eq!(create_decision_log("", "").unwrap_err(), "Content cannot be empty");
    assert_eq!(create_decision_log("x", " ").unwrap_err(), "Filename cannot be empty");
    assert_eq!(create_decision_log("x", "md").unwrap_err(), "Filename must end with .md");
    assert_eq!(create_decision_log("x", "a.MD").unwrap_err(), "Filename must end with .md");
    assert!(create_decision_log("x", ".md").is_ok());
}
