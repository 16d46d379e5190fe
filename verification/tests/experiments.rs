use unheard::experiments::{resolve_unique_filename, write_experiment_config};
use unheard::git::CommitError;
use unheard::procedure::{
    PlannedTask, Procedure, ProcedureError, Reply, Report, Request, Step, Task,
};

/// Carries out a procedure without touching anything: every task succeeds
/// and the commit ends as `commit` says.
fn carry_out(plan: Procedure, commit: Result<String, CommitError>) -> Result<Report, ProcedureError> {
    let mut commit = Some(commit);
    let mut step = plan.begin();
    loop {
        match step {
            Step::Finished { outcome } => return outcome,
            Step::Ask { run, request } => {
                let reply = match request {
                    Request::Perform { .. } => Reply::Done,
                    Request::ProbeLargeObjects => Reply::Probed { tool_run: None },
                    Request::Commit { .. } => Reply::Committed { outcome: commit.take().unwrap() },
                };
                step = run.advance(reply);
            }
        }
    }
}

fn store_unavailable() -> Result<String, CommitError> {
    Err(CommitError::NotFound { cause: "could not find repository".to_string() })
}

fn directory_of(task: &PlannedTask) -> &str {
    match &task.task {
        Task::EnsureDirectory { path } => path,
        other => panic!("expected a directory, got {other:?}"),
    }
}

fn file_of(task: &PlannedTask) -> (&str, &str) {
    match &task.task {
        Task::WriteFile { path, content } => (path, content),
        other => panic!("expected a file, got {other:?}"),
    }
}

fn names(list: &[&str]) -> Vec<String> {
    list.iter().map(|s| s.to_string()).collect()
}

#[test]
fn test_write_experiment_config_success() {
    let yaml_content =
        "metadata:\n  id: exp-2026-02-06-test\n  version: \"1.0\"\n  created: \"2026-02-06T14:30:00Z\"\n";

    let result = write_experiment_config("2026-02-06-test.yaml", yaml_content, &names(&[]));

    assert!(result.is_ok());
    let plan = result.unwrap();
    assert_eq!(plan.paths, vec!["experiments/2026-02-06-test.yaml".to_string()]);
    assert_eq!(plan.tasks.len(), 2);
    assert_eq!(file_of(&plan.tasks[1]), ("experiments/2026-02-06-test.yaml", yaml_content));
    assert_eq!(plan.commit_message, "[unheard] Add experiment config: 2026-02-06-test.yaml");

    let report = carry_out(plan, Ok("c0ffee".to_string())).unwrap();
    assert_eq!(report.written_paths(), vec!["experiments/2026-02-06-test.yaml".to_string()]);
}

#[test]
fn test_write_experiment_config_creates_directory() {
    let result = write_experiment_config("test.yaml", "metadata: {id: test}", &names(&[]));

    assert!(result.is_ok());
    let plan = result.unwrap();
    assert_eq!(directory_of(&plan.tasks[0]), "experiments");
    assert_eq!(plan.tasks[0].failure, "Failed to create experiments directory: ");
    assert_eq!(plan.tasks[1].failure, "Failed to write experiment config: ");
}

#[test]
fn test_write_experiment_config_duplicate_handling() {
    let yaml_content = "metadata: {id: test}";
    let mut existing: Vec<String> = Vec::new();

    let plan1 = write_experiment_config("2026-02-06-test.yaml", yaml_content, &existing).unwrap();
    assert_eq!(plan1.paths, vec!["experiments/2026-02-06-test.yaml".to_string()]);
    existing.push("2026-02-06-test.yaml".to_string());

    let plan2 = write_experiment_config("2026-02-06-test.yaml", yaml_content, &existing).unwrap();
    assert_eq!(plan2.paths, vec!["experiments/2026-02-06-test-2.yaml".to_string()]);
    existing.push("2026-02-06-test-2.yaml".to_string());

    let plan3 = write_experiment_config("2026-02-06-test.yaml", yaml_content, &existing).unwrap();
    assert_eq!(plan3.paths, vec!["experiments/2026-02-06-test-3.yaml".to_string()]);
    existing.push("2026-02-06-test-3.yaml".to_string());

    // All three names are distinct, so all three files exist side by side.
    assert_eq!(existing.len(), 3);
    assert_ne!(existing[0], existing[1]);
    assert_ne!(existing[1], existing[2]);
    assert_ne!(existing[0], existing[2]);
    assert_eq!(plan3.commit_message, "[unheard] Add experiment config: 2026-02-06-test-3.yaml");
}

#[test]
fn test_write_experiment_config_empty_content() {
    let result = write_experiment_config("test.yaml", "   ", &names(&[]));

    assert!(result.is_err());
    assert!(result.unwrap_err().contains("YAML content cannot be empty"));
}

#[test]
fn test_write_experiment_config_empty_filename() {
    let result = write_experiment_config("", "metadata: {id: test}", &names(&[]));

    assert!(result.is_err());
    assert!(result.unwrap_err().contains("Filename cannot be empty"));
}

#[test]
fn test_write_experiment_config_invalid_extension() {
    let result = write_experiment_config("test.yml", "metadata: {id: test}", &names(&[]));

    assert!(result.is_err());
    assert!(result.unwrap_err().contains("must end with .yaml"));
}

#[test]
fn test_write_experiment_config_git_failure_does_not_fail() {
    let plan = write_experiment_config("test.yaml", "metadata: {id: test}", &names(&[])).unwrap();

    let result = carry_out(plan, store_unavailable());

    assert!(result.is_ok());
    assert_eq!(result.unwrap().written_paths(), vec!["experiments/test.yaml".to_string()]);
}

#[test]
fn test_resolve_unique_filename_no_conflict() {
    let result = resolve_unique_filename(&names(&[]), "test.yaml");
    assert_eq!(result, "test.yaml");
}

#[test]
fn test_resolve_unique_filename_with_conflict() {
    let result = resolve_unique_filename(&names(&["test.yaml"]), "test.yaml");
    assert_eq!(result, "test-2.yaml");
}

#[test]
fn test_resolve_unique_filename_multiple_conflicts() {
    let existing = names(&["test.yaml", "test-2.yaml", "test-3.yaml"]);

    let result = resolve_unique_filename(&existing, "test.yaml");
    assert_eq!(result, "test-4.yaml");
}

#[test]
fn resolve_takes_the_first_gap() {
    let existing = names(&["test.yaml", "test-3.yaml", "other.yaml", "test-2.yml"]);
    assert_eq!(resolve_unique_filename(&existing, "test.yaml"), "test-2.yaml");
}

#[test]
fn resolve_counts_past_nine() {
    let mut existing = names(&["run.yaml"]);
    for k in 2..=11 {
        existing.push(format!("run-{k}.yaml"));
    }
    assert_eq!(resolve_unique_filename(&existing, "run.yaml"), "run-12.yaml");
}

#[test]
fn resolve_counts_before_the_one_final_extension() {
    let existing = names(&["a.yaml.yaml"]);
    assert_eq!(resolve_unique_filename(&existing, "a.yaml.yaml"), "a.yaml-2.yaml");

    let existing = names(&["a.yaml.yaml", "a.yaml-2.yaml", "a-2.yaml"]);
    assert_eq!(resolve_unique_filename(&existing, "a.yaml.yaml"), "a.yaml-3.yaml");

    let existing = names(&[".yaml"]);
    assert_eq!(resolve_unique_filename(&existing, ".yaml"), "-2.yaml");

    let existing = names(&["a.YAML"]);
    assert_eq!(resolve_unique_filename(&existing, "a.YAML"), "a.YAML-2.yaml");
}

#[test]
fn resolve_keeps_a_name_without_extension() {
    let existing = names(&["notes"]);
    assert_eq!(resolve_unique_filename(&existing, "notes"), "notes-2.yaml");
}

#[test]
fn resolve_ignores_repeated_names_in_the_listing() {
    let existing = names(&["t.yaml", "t.yaml", "t-2.yaml", "t-2.yaml"]);
    assert_eq!(resolve_unique_filename(&existing, "t.yaml"), "t-3.yaml");
}

#[test]
fn experiment_checks_run_in_order() {
    let none = names(&[]);
    assert_eq!(write_experiment_config("", "", &none).unwrap_err(), "YAML content cannot be empty");
    assert_eq!(write_experiment_config(" ", "a: 1", &none).unwrap_err(), "Filename cannot be empty");
    assert_eq!(
        write_experiment_config("a.yaml.bak", "a: 1", &none).unwrap_err(),
        "Filename must end with .yaml"
    );
}
