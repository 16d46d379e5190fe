//! Saving imported CRM records as JSON files under `attio/`.

use vstd::prelude::*;
use crate::procedure::{
    directory_task,
    ensure_directory,
    file_task,
    lemma_written_pair,
    lemma_written_push,
    task_models,
    write_file,
    written,
    PlannedTask,
    PlannedTaskModel,
    Procedure,
    ProcedureError,
    ProcedureModel,
    Report,
};
use crate::store::{is_one_line, tells_commits_apart, Naming, Store};
use crate::world::{
    full_report,
    lemma_procedure_commits_once,
    lemma_tasks_keep_the_repository,
    perform,
};
use crate::text::{
    blank,
    concat2,
    decimal,
    is_blank,
    lemma_not_blank,
    push_decimal,
    same_text,
    texts,
};

verus! {

/// One record of a batch import.
#[derive(Debug, Clone)]
pub struct AttioImportEntry {
    pub object_type: String,
    pub record_id: String,
    pub filename: String,
    pub json_content: String,
}

/// The object types that can be imported.
pub open spec fn is_object_type(s: Seq<char>) -> bool {
    s == "company"@ || s == "person"@ || s == "list_entry"@
}

/// Decides whether `s` names an object type that can be imported.
pub fn is_attio_object_type(s: &str) -> (b: bool)
    ensures
        b == is_object_type(s@),
{
    same_text(s, "company") || same_text(s, "person") || same_text(s, "list_entry")
}

/// The directory of the records of one object type.
pub open spec fn import_directory(object_type: Seq<char>) -> Seq<char> {
    "attio/"@ + object_type
}

/// The file of one record: `attio/<type>/<filename>.json`.
pub open spec fn import_path(object_type: Seq<char>, filename: Seq<char>) -> Seq<char> {
    "attio/"@ + object_type + "/"@ + filename + ".json"@
}

/// The task that makes the directory of a record.
pub open spec fn import_directory_task(object_type: Seq<char>) -> PlannedTaskModel {
    directory_task(import_directory(object_type), "Failed to create directory: "@)
}

/// Why a single record is refused, if it is.
pub open spec fn import_fault(
    object_type: Seq<char>,
    filename: Seq<char>,
    json_content: Seq<char>,
) -> Option<Seq<char>> {
    if !is_object_type(object_type) {
        Some("Invalid object type: "@ + object_type)
    } else if blank(filename) {
        Some("Filename cannot be empty"@)
    } else if blank(json_content) {
        Some("JSON content cannot be empty"@)
    } else {
        None
    }
}

/// What saving a single accepted record does: its directory is made, its
/// file is written, and the file is committed; a commit that fails does
/// not undo the save.
pub open spec fn import_plan(
    object_type: Seq<char>,
    filename: Seq<char>,
    json_content: Seq<char>,
) -> ProcedureModel {
    ProcedureModel {
        tasks: seq![
            import_directory_task(object_type),
            file_task(import_path(object_type, filename), json_content, "Failed to write file: "@),
        ],
        probe_large_objects: false,
        paths: seq![import_path(object_type, filename)],
        commit_message: "Import Attio "@ + object_type + ": "@ + filename,
        commit_required: false,
    }
}

/// Builds the path of the file of a record.
fn build_path(object_type: &str, filename: &str) -> (path: String)
    ensures
        path@ == import_path(object_type@, filename@),
{
    let mut path = concat2("attio/", object_type);
    path.append("/");
    path.append(filename);
    path.append(".json");
    path
}

/// Plans the directory of a record.
fn plan_directory(object_type: &str) -> (planned: PlannedTask)
    ensures
        planned@ == import_directory_task(object_type@),
{
    let directory = concat2("attio/", object_type);
    ensure_directory(directory.as_str(), "Failed to create directory: ")
}

/// Plans the import of one record: checks the object type, the filename and
/// the content, in that order, and on success says which file to write and
/// under which message to commit it. `record_id` identifies the record to
/// the caller and plays no part in the plan.
pub fn save_attio_import(
    object_type: &str,
    record_id: &str,
    filename: &str,
    json_content: &str,
) -> (r: Result<Procedure, String>)
    ensures
        match r {
            Ok(plan) => import_fault(object_type@, filename@, json_content@) is None && plan@
                == import_plan(object_type@, filename@, json_content@),
            Err(e) => import_fault(object_type@, filename@, json_content@) == Some(e@),
        },
{
    if !is_attio_object_type(object_type) {
        return Err(concat2("Invalid object type: ", object_type));
    }
    if is_blank(filename) {
        return Err("Filename cannot be empty".to_owned());
    }
    if is_blank(json_content) {
        return Err("JSON content cannot be empty".to_owned());
    }
    let path = build_path(object_type, filename);
    let mut tasks: Vec<PlannedTask> = Vec::new();
    tasks.push(plan_directory(object_type));
    tasks.push(write_file(path.as_str(), json_content, "Failed to write file: "));
    let mut paths: Vec<String> = Vec::new();
    paths.push(path);
    let mut commit_message = concat2("Import Attio ", object_type);
    commit_message.append(": ");
    commit_message.append(filename);
    let plan = Procedure {
        tasks,
        probe_large_objects: false,
        paths,
        commit_message,
        commit_required: false,
    };
    assert(plan@.tasks =~= import_plan(object_type@, filename@, json_content@).tasks);
    assert(plan@.paths =~= import_plan(object_type@, filename@, json_content@).paths);
    Ok(plan)
}

/// Why an entry of a batch is refused, if it is; the text follows the
/// entry's position in the error.
pub open spec fn entry_fault(entry: AttioImportEntry) -> Option<Seq<char>> {
    if !is_object_type(entry.object_type@) {
        Some("invalid object type: "@ + entry.object_type@)
    } else if blank(entry.filename@) {
        Some("filename cannot be empty"@)
    } else if blank(entry.json_content@) {
        Some("JSON content cannot be empty"@)
    } else {
        None
    }
}

/// The error for the entry at `index`, refused for `fault`.
pub open spec fn entry_error(index: int, fault: Seq<char>) -> Seq<char> {
    "Entry "@ + decimal(index as nat) + ": "@ + fault
}

/// The file of an entry of a batch.
pub open spec fn entry_path(entry: AttioImportEntry) -> Seq<char> {
    import_path(entry.object_type@, entry.filename@)
}

/// The task that writes the file of an entry of a batch; its error names
/// the file.
pub open spec fn entry_file_task(entry: AttioImportEntry) -> PlannedTaskModel {
    file_task(
        entry_path(entry),
        entry.json_content@,
        "Failed to write file "@ + entry_path(entry) + ": "@,
    )
}

/// What saving an accepted batch does: for each entry, in order, its
/// directory is made and its file is written; then all the files are
/// committed at once. A commit that fails does not undo the saves.
pub open spec fn batch_plan(imports: Seq<AttioImportEntry>) -> ProcedureModel {
    ProcedureModel {
        tasks: Seq::new(
            2 * imports.len(),
            |i: int|
                if i % 2 == 0 {
                    import_directory_task(imports[i / 2].object_type@)
                } else {
                    entry_file_task(imports[i / 2])
                },
        ),
        probe_large_objects: false,
        paths: Seq::new(imports.len(), |i: int| entry_path(imports[i])),
        commit_message: "Import "@ + decimal(imports.len()) + " Attio records"@,
        commit_required: false,
    }
}

/// The entry at `index` is the first one that is refused.
pub open spec fn first_refused(imports: Seq<AttioImportEntry>, index: int) -> bool {
    &&& 0 <= index < imports.len()
    &&& entry_fault(imports[index]) is Some
    &&& forall|j: int| 0 <= j < index ==> entry_fault(#[trigger] imports[j]) is None
}

/// Checks one entry of a batch.
fn check_entry(entry: &AttioImportEntry) -> (fault: Option<String>)
    ensures
        match fault {
            Some(text) => entry_fault(*entry) == Some(text@),
            None => entry_fault(*entry) is None,
        },
{
    if !is_attio_object_type(entry.object_type.as_str()) {
        return Some(concat2("invalid object type: ", entry.object_type.as_str()));
    }
    if is_blank(entry.filename.as_str()) {
        return Some("filename cannot be empty".to_owned());
    }
    if is_blank(entry.json_content.as_str()) {
        return Some("JSON content cannot be empty".to_owned());
    }
    None
}

/// Plans the import of a batch. Every entry is checked before anything is
/// planned: the first refused entry fails the whole batch, with its
/// position counted from 0, and then no file is written. An accepted batch
/// is written entry by entry and committed once.
pub fn batch_save_attio_imports(imports: &Vec<AttioImportEntry>) -> (r: Result<Procedure, String>)
    ensures
        match r {
            Ok(plan) => {
                &&& imports@.len() > 0
                &&& forall|i: int|
                    0 <= i < imports@.len() ==> entry_fault(#[trigger] imports@[i]) is None
                &&& plan@ == batch_plan(imports@)
            },
            Err(e) => {
                ||| imports@.len() == 0 && e@ == "No imports provided"@
                ||| exists|i: int|
                    first_refused(imports@, i) && e@ == entry_error(
                        i,
                        entry_fault(imports@[i])->0,
                    )
            },
        },
{
    if imports.len() == 0 {
        return Err("No imports provided".to_owned());
    }
    let mut i: usize = 0;
    while i < imports.len()
        invariant
            i <= imports@.len(),
            forall|j: int| 0 <= j < i ==> entry_fault(#[trigger] imports@[j]) is None,
        decreases imports@.len() - i,
    {
        match check_entry(&imports[i]) {
            Some(fault) => {
                let mut message = "Entry ".to_owned();
                push_decimal(&mut message, i as u128);
                message.append(": ");
                message.append(fault.as_str());
                assert(first_refused(imports@, i as int));
                return Err(message);
            },
            None => {},
        }
        i += 1;
    }
    let mut tasks: Vec<PlannedTask> = Vec::new();
    let mut paths: Vec<String> = Vec::new();
    let mut k: usize = 0;
    while k < imports.len()
        invariant
            k <= imports@.len(),
            tasks@.len() == 2 * k,
            paths@.len() == k,
            forall|j: int|
                0 <= j < k ==> (#[trigger] tasks@[2 * j])@ == import_directory_task(
                    imports@[j].object_type@,
                ),
            forall|j: int|
                0 <= j < k ==> (#[trigger] tasks@[2 * j + 1])@ == entry_file_task(imports@[j]),
            forall|j: int| 0 <= j < k ==> (#[trigger] paths@[j])@ == entry_path(imports@[j]),
        decreases imports@.len() - k,
    {
        let entry = &imports[k];
        let path = build_path(entry.object_type.as_str(), entry.filename.as_str());
        let mut write_failure = concat2("Failed to write file ", path.as_str());
        write_failure.append(": ");
        tasks.push(plan_directory(entry.object_type.as_str()));
        tasks.push(write_file(path.as_str(), entry.json_content.as_str(), write_failure.as_str()));
        paths.push(path);
        k += 1;
    }
    let mut commit_message = "Import ".to_owned();
    push_decimal(&mut commit_message, imports.len() as u128);
    commit_message.append(" Attio records");
    let plan = Procedure {
        tasks,
        probe_large_objects: false,
        paths,
        commit_message,
        commit_required: false,
    };
    proof {
        let wanted = batch_plan(imports@);
        assert forall|i: int| 0 <= i < plan@.tasks.len() implies plan@.tasks[i]
            == wanted.tasks[i] by {
            let j = i / 2;
            if i % 2 == 0 {
                assert(i == 2 * j);
                assert(plan.tasks@[2 * j]@ == import_directory_task(imports@[j].object_type@));
            } else {
                assert(i == 2 * j + 1);
                assert(plan.tasks@[2 * j + 1]@ == entry_file_task(imports@[j]));
            }
        }
        assert(plan@.tasks =~= wanted.tasks);
        assert(plan@.paths =~= wanted.paths);
    }
    Ok(plan)
}

/// What the import of a record reports as written is what it commits, and
/// the message of its commit is never blank: the commit transaction does
/// not refuse it.
pub proof fn lemma_import_is_committed(
    object_type: Seq<char>,
    filename: Seq<char>,
    json_content: Seq<char>,
)
    ensures
        written(import_plan(object_type, filename, json_content).tasks) == import_plan(
            object_type,
            filename,
            json_content,
        ).paths,
        !blank(import_plan(object_type, filename, json_content).commit_message),
{
    let plan = import_plan(object_type, filename, json_content);
    lemma_written_pair(plan.tasks[0], plan.tasks[1]);
    assert(plan.tasks =~= seq![plan.tasks[0], plan.tasks[1]]);
    reveal_strlit("Import Attio ");
    assert(plan.commit_message[0] == 'I');
    lemma_not_blank(plan.commit_message, 0);
}

/// A batch of one entry less plans the same tasks and paths but the last.
proof fn lemma_batch_plan_grows(imports: Seq<AttioImportEntry>)
    requires
        imports.len() > 0,
    ensures
        batch_plan(imports).tasks == batch_plan(imports.drop_last()).tasks.push(
            import_directory_task(imports.last().object_type@),
        ).push(entry_file_task(imports.last())),
        batch_plan(imports).paths == batch_plan(imports.drop_last()).paths.push(
            entry_path(imports.last()),
        ),
{
    let shorter = batch_plan(imports.drop_last());
    let grown = shorter.tasks.push(import_directory_task(imports.last().object_type@)).push(
        entry_file_task(imports.last()),
    );
    assert forall|i: int| 0 <= i < grown.len() implies grown[i] == batch_plan(imports).tasks[i] by {
        if i < shorter.tasks.len() {
            assert(imports.drop_last()[i / 2] == imports[i / 2]);
        }
    }
    assert(batch_plan(imports).tasks =~= grown);
    assert(batch_plan(imports).paths =~= shorter.paths.push(entry_path(imports.last())));
}

/// What a batch reports as written is what it commits: the files of its
/// entries, in the order of the entries.
pub proof fn lemma_batch_writes_what_it_commits(imports: Seq<AttioImportEntry>)
    ensures
        written(batch_plan(imports).tasks) == batch_plan(imports).paths,
    decreases imports.len(),
{
    if imports.len() == 0 {
        assert(batch_plan(imports).tasks =~= Seq::<PlannedTaskModel>::empty());
        assert(batch_plan(imports).paths =~= Seq::<Seq<char>>::empty());
    } else {
        let shorter = batch_plan(imports.drop_last());
        let directory = import_directory_task(imports.last().object_type@);
        let file = entry_file_task(imports.last());
        lemma_batch_writes_what_it_commits(imports.drop_last());
        lemma_batch_plan_grows(imports);
        lemma_written_push(shorter.tasks, directory);
        lemma_written_push(shorter.tasks.push(directory), file);
    }
}

/// The message of the commit of a batch is never blank: the commit
/// transaction does not refuse it.
pub proof fn lemma_batch_message_is_not_blank(imports: Seq<AttioImportEntry>)
    ensures
        !blank(batch_plan(imports).commit_message),
{
    reveal_strlit("Import ");
    assert(batch_plan(imports).commit_message[0] == 'I');
    lemma_not_blank(batch_plan(imports).commit_message, 0);
}

/// One batch, one commit. An accepted batch, carried out on a project
/// that has its repository and lets every file be written, grows the
/// history by exactly one commit, not by one for each entry: the report
/// names the commit, whose only parent is the commit that HEAD pointed to
/// before, whose message counts the entries and whose tree holds the file
/// of every entry; and the files reported as written are the files of the
/// entries, in their order. Where the history was one line and identifiers
/// tell commits apart, the history is one commit longer, not one for each
/// entry.
pub proof fn lemma_batch_commits_once(
    store: Store,
    names: Naming,
    tool_run: Option<bool>,
    imports: Seq<AttioImportEntry>,
    plan: Procedure,
)
    requires
        imports.len() > 0,
        plan@ == batch_plan(imports),
        store.exists,
    ensures
        ({
            let end = perform(store, names, tool_run, plan);
            let report = full_report(store, names, tool_run, plan);
            let h = report.commit_hash->0;
            let commit = end.store.commits[h];
            let tree = end.store.trees[commit.tree];
            &&& end.result == Some(Ok::<Report, ProcedureError>(report))
            &&& report.commit_hash is Some
            &&& written(task_models(report.performed@)) == Seq::new(
                imports.len(),
                |i: int| entry_path(imports[i]),
            )
            &&& end.store.head == Some(h)
            &&& end.store.commits == store.commits.insert(h, commit)
            &&& commit.parent == store.head
            &&& commit.message@ == "Import "@ + decimal(imports.len()) + " Attio records"@
            &&& forall|j: int|
                0 <= j < imports.len() ==> tree.contains_key(#[trigger] entry_path(imports[j]))
            &&& is_one_line(store, names) && tells_commits_apart(names) ==> {
                &&& !store.commits.contains_key(h)
                &&& end.store.history == store.history.push(h)
                &&& is_one_line(end.store, names)
            }
        }),
{
    lemma_batch_writes_what_it_commits(imports);
    lemma_batch_message_is_not_blank(imports);
    lemma_tasks_keep_the_repository(store, plan.tasks@);
    assert(texts(plan.paths@).len() == imports.len());
    lemma_procedure_commits_once(store, names, tool_run, plan);
    let end = perform(store, names, tool_run, plan);
    let h = full_report(store, names, tool_run, plan).commit_hash->0;
    let tree = end.store.trees[end.store.commits[h].tree];
    assert forall|j: int| 0 <= j < imports.len() implies tree.contains_key(
        #[trigger] entry_path(imports[j]),
    ) by {
        assert(texts(plan.paths@)[j] == entry_path(imports[j]));
        assert(tree.contains_key(plan.paths@[j]@));
    }
}

} // verus!
