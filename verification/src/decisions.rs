//! Saving decision logs as Markdown files under `decisions/`.

use vstd::prelude::*;
use crate::procedure::{
    directory_task,
    ensure_directory,
    file_task,
    lemma_written_pair,
    write_file,
    written,
    PlannedTask,
    Procedure,
    ProcedureModel,
};
use crate::text::{blank, concat2, ends_with, is_blank, lemma_not_blank};

verus! {

/// Why a decision log is refused, if it is.
pub open spec fn decision_fault(content: Seq<char>, filename: Seq<char>) -> Option<Seq<char>> {
    if blank(content) {
        Some("Content cannot be empty"@)
    } else if blank(filename) {
        Some("Filename cannot be empty"@)
    } else if !".md"@.is_suffix_of(filename) {
        Some("Filename must end with .md"@)
    } else {
        None
    }
}

/// What saving an accepted decision log does: the directory `decisions` is
/// made, the file is written under it, and the file is committed; a commit
/// that fails does not undo the save.
pub open spec fn decision_plan(content: Seq<char>, filename: Seq<char>) -> ProcedureModel {
    ProcedureModel {
        tasks: seq![
            directory_task("decisions"@, "Failed to create decisions directory: "@),
            file_task("decisions/"@ + filename, content, "Failed to write decision log: "@),
        ],
        probe_large_objects: false,
        paths: seq!["decisions/"@ + filename],
        commit_message: "Create decision: "@ + filename,
        commit_required: false,
    }
}

/// Plans the creation of a decision log: checks the content, the filename
/// and its extension, in that order, and on success says which file to
/// write and under which message to commit it.
pub fn create_decision_log(content: &str, filename: &str) -> (r: Result<Procedure, String>)
    ensures
        match r {
            Ok(plan) => decision_fault(content@, filename@) is None && plan@ == decision_plan(
                content@,
                filename@,
            ),
            Err(e) => decision_fault(content@, filename@) == Some(e@),
        },
{
    if is_blank(content) {
        return Err("Content cannot be empty".to_owned());
    }
    if is_blank(filename) {
        return Err("Filename cannot be empty".to_owned());
    }
    if !ends_with(filename, ".md") {
        return Err("Filename must end with .md".to_owned());
    }
    let path = concat2("decisions/", filename);
    let mut tasks: Vec<PlannedTask> = Vec::new();
    tasks.push(ensure_directory("decisions", "Failed to create decisions directory: "));
    tasks.push(write_file(path.as_str(), content, "Failed to write decision log: "));
    let mut paths: Vec<String> = Vec::new();
    paths.push(path);
    let plan = Procedure {
        tasks,
        probe_large_objects: false,
        paths,
        commit_message: concat2("Create decision: ", filename),
        commit_required: false,
    };
    assert(plan@.tasks =~= decision_plan(content@, filename@).tasks);
    assert(plan@.paths =~= decision_plan(content@, filename@).paths);
    Ok(plan)
}

/// What the creation of a decision log reports as written is what it
/// commits, and the message of its commit is never blank: the commit
/// transaction does not refuse it.
pub proof fn lemma_decision_is_committed(content: Seq<char>, filename: Seq<char>)
    ensures
        written(decision_plan(content, filename).tasks) == decision_plan(content, filename).paths,
        !blank(decision_plan(content, filename).commit_message),
{
    let plan = decision_plan(content, filename);
    lemma_written_pair(plan.tasks[0], plan.tasks[1]);
    assert(plan.tasks =~= seq![plan.tasks[0], plan.tasks[1]]);
    reveal_strlit("Create decision: ");
    assert(plan.commit_message[0] == 'C');
    lemma_not_blank(plan.commit_message, 0);
}

} // verus!
