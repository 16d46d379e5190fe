//! Bootstrapping a project directory: which directories are eligible, what
//! the new project holds, and what is reported once its first commit is
//! made. Also the rules by which the files of a project are listed.

use vstd::prelude::*;
use crate::procedure::{
    directory_task,
    ensure_directory,
    file_task,
    lemma_written_push,
    task_models,
    write_file,
    written,
    PlannedTask,
    PlannedTaskModel,
    Procedure,
    ProcedureError,
    ProcedureModel,
    Report,
    Task,
    TaskModel,
};
use crate::store::{Naming, Store};
use crate::world::{
    full_report,
    lemma_committed_paths_are_on_disk,
    lemma_created_repository_exists,
    lemma_procedure_commits,
    lemma_procedure_commits_once,
    perform,
};
use crate::text::{
    blank,
    concat2,
    decimal,
    lemma_not_blank,
    lowercase,
    push_decimal,
    same_text,
    starts_with_char,
    texts,
};

verus! {

/// Result of bootstrapping a project.
#[derive(Debug, Clone)]
pub struct GitInitResult {
    pub success: bool,
    /// The project directory.
    pub path: String,
    /// Whether the large-object tool is installed on the host.
    pub lfs_available: bool,
    /// Identifier of the first commit.
    pub commit_hash: Option<String>,
}

/// The policy file that says which files go to large-object storage.
pub const POLICY_PATH: &'static str = ".gitattributes";

/// The file that describes the layout of a project.
pub const README_PATH: &'static str = "README.md";

/// The large-object policy: documents and spreadsheets under `context/`,
/// and nothing else.
pub const POLICY: &'static str =
    "# Git LFS tracking for large files\ncontext/**/*.pdf filter=lfs diff=lfs merge=lfs -text\ncontext/**/*.xlsx filter=lfs diff=lfs merge=lfs -text\n";

/// The description of a project's layout.
pub const README: &'static str =
    "# Unheard Project\n\nThis directory contains context files, decisions, and experiment results for your project.\n\n## Directory Structure\n\n- `context/` - Uploaded context files (CSV, PDF, Excel)\n- `decisions/` - Decision records and analysis\n- `experiments/` - Experiment configurations and results\n\n## Git LFS\n\nThis project uses Git LFS for large files (PDF and Excel files in context/).\nIf you don't have Git LFS installed, you can continue without it, but large files\nmay impact repository performance.\n\nInstall Git LFS: https://git-lfs.github.com/\n";

/// The message of a project's first commit.
pub const INITIAL_COMMIT_MESSAGE: &'static str = "Initial commit: Set up project structure";

/// What reading the entries of a directory gave.
#[derive(Debug, Clone)]
pub enum Listing {
    /// The names of the entries.
    Entries { names: Vec<String> },
    /// The directory could not be read.
    Unreadable { cause: String },
    /// One of the entries could not be read.
    UnreadableEntry { cause: String },
}

/// What is known of the directory in which a project is to be set up.
#[derive(Debug, Clone)]
pub struct TargetProbe {
    pub exists: bool,
    pub is_directory: bool,
    /// Whether the directory already holds a repository.
    pub has_repository: bool,
    /// The entries of the directory, as far as they could be read.
    pub entries: Listing,
}

/// A name that starts with a dot.
pub open spec fn hidden(name: Seq<char>) -> bool {
    name.len() > 0 && name[0] == '.'
}

/// The number of names that do not start with a dot.
pub open spec fn visible_count(names: Seq<String>) -> nat
    decreases names.len(),
{
    if names.len() == 0 {
        0
    } else {
        visible_count(names.drop_last()) + if hidden(names.last()@) {
            0nat
        } else {
            1nat
        }
    }
}

/// Why a directory cannot become a project, if it cannot: the first of the
/// conditions, in this order, that it does not meet.
pub open spec fn target_fault(probe: TargetProbe) -> Option<Seq<char>> {
    if !probe.exists {
        Some("Directory does not exist"@)
    } else if !probe.is_directory {
        Some("Path is not a directory"@)
    } else if probe.has_repository {
        Some("Directory already contains a Git repository (.git exists)"@)
    } else {
        match probe.entries {
            Listing::Unreadable { cause } => Some("Failed to read directory: "@ + cause@),
            Listing::UnreadableEntry { cause } => Some(
                "Failed to read directory entry: "@ + cause@,
            ),
            Listing::Entries { names } => if visible_count(names@) > 0 {
                Some(
                    "Directory must be empty to initialize a new project. Found "@ + decimal(
                        visible_count(names@),
                    ) + " file(s)/folder(s)."@,
                )
            } else {
                None
            },
        }
    }
}

/// Decides whether a name starts with a dot.
pub fn is_hidden(name: &str) -> (b: bool)
    ensures
        b == hidden(name@),
{
    starts_with_char(name, '.')
}

/// Counts the names that do not start with a dot.
pub fn count_visible(names: &Vec<String>) -> (count: usize)
    ensures
        count == visible_count(names@),
{
    let mut count: usize = 0;
    let mut i: usize = 0;
    while i < names.len()
        invariant
            i <= names@.len(),
            count <= i,
            count == visible_count(names@.take(i as int)),
        decreases names@.len() - i,
    {
        assert(names@.take(i + 1).drop_last() =~= names@.take(i as int));
        if !is_hidden(names[i].as_str()) {
            count += 1;
        }
        i += 1;
    }
    assert(names@.take(names@.len() as int) =~= names@);
    count
}

/// Hidden entries do not stand in the way of a bootstrap and every other
/// entry does: no name is counted exactly when every name starts with a dot.
pub proof fn lemma_only_hidden_entries_pass(names: Seq<String>)
    ensures
        visible_count(names) == 0 <==> forall|i: int|
            0 <= i < names.len() ==> hidden((#[trigger] names[i])@),
    decreases names.len(),
{
    if names.len() > 0 {
        let before = names.drop_last();
        lemma_only_hidden_entries_pass(before);
        assert forall|i: int| 0 <= i < before.len() implies before[i] == names[i] by {}
        if visible_count(names) == 0 {
            assert forall|i: int| 0 <= i < names.len() implies hidden((#[trigger] names[i])@) by {
                if i < before.len() {
                    assert(hidden(before[i]@));
                }
            }
        }
        if forall|i: int| 0 <= i < names.len() ==> hidden((#[trigger] names[i])@) {
            assert forall|i: int| 0 <= i < before.len() implies hidden((#[trigger] before[i])@) by {
                assert(hidden(names[i]@));
            }
            assert(hidden(names[names.len() - 1]@));
        }
    }
}

/// The task that creates the repository of a new project.
pub open spec fn repository_task() -> PlannedTaskModel {
    PlannedTaskModel {
        task: TaskModel::CreateRepository,
        failure: "Failed to initialize Git repository: "@,
    }
}

/// The task that makes a directory of a new project.
pub open spec fn skeleton_directory(path: Seq<char>) -> PlannedTaskModel {
    directory_task(path, "Failed to create directory "@ + path + ": "@)
}

/// The task that writes a file of a new project.
pub open spec fn skeleton_file(path: Seq<char>, content: Seq<char>) -> PlannedTaskModel {
    file_task(path, content, "Failed to write "@ + path + ": "@)
}

/// What bootstrapping does to an eligible directory, in order: the
/// repository is created; the directories for context files, decisions and
/// experiments are made; the large-object policy and the README are
/// written; the tool for large objects is looked for; both files are
/// committed. Without that first commit the project is not set up: the
/// commit is required.
pub open spec fn bootstrap_plan() -> ProcedureModel {
    ProcedureModel {
        tasks: seq![
            repository_task(),
            skeleton_directory("context"@),
            skeleton_directory("decisions"@),
            skeleton_directory("experiments"@),
            skeleton_file(POLICY_PATH@, POLICY@),
            skeleton_file(README_PATH@, README@),
        ],
        probe_large_objects: true,
        paths: seq![POLICY_PATH@, README_PATH@],
        commit_message: INITIAL_COMMIT_MESSAGE@,
        commit_required: true,
    }
}

/// The first commit of a project holds the files that the bootstrap
/// wrote, the policy and the README, and its message is not blank: the
/// commit transaction does not refuse it.
pub proof fn lemma_bootstrap_is_committed()
    ensures
        written(bootstrap_plan().tasks) == bootstrap_plan().paths,
        !blank(bootstrap_plan().commit_message),
{
    let tasks = bootstrap_plan().tasks;
    let none = Seq::<PlannedTaskModel>::empty();
    let t1 = none.push(tasks[0]);
    let t2 = t1.push(tasks[1]);
    let t3 = t2.push(tasks[2]);
    let t4 = t3.push(tasks[3]);
    let t5 = t4.push(tasks[4]);
    let t6 = t5.push(tasks[5]);
    lemma_written_push(none, tasks[0]);
    lemma_written_push(t1, tasks[1]);
    lemma_written_push(t2, tasks[2]);
    lemma_written_push(t3, tasks[3]);
    lemma_written_push(t4, tasks[4]);
    lemma_written_push(t5, tasks[5]);
    assert(t6 =~= tasks);
    assert(written(none) =~= Seq::<Seq<char>>::empty());
    assert(written(tasks) =~= bootstrap_plan().paths);
    reveal_strlit("Initial commit: Set up project structure");
    assert(bootstrap_plan().commit_message[0] == 'I');
    lemma_not_blank(bootstrap_plan().commit_message, 0);
}

/// The bootstrap makes the first commit. Carried out on a directory that
/// lets everything be created, the plan of a bootstrap ends well with a
/// commit that the report names: HEAD points to it, its parent is what
/// HEAD pointed to before, which is nothing in a directory that had no
/// repository, and its tree holds the policy and the README. Whether the
/// large-object tool was found is reported and changes nothing else.
pub proof fn lemma_bootstrap_makes_the_first_commit(
    store: Store,
    names: Naming,
    tool_run: Option<bool>,
    plan: Procedure,
)
    requires
        plan@ == bootstrap_plan(),
    ensures
        ({
            let end = perform(store, names, tool_run, plan);
            let report = full_report(store, names, tool_run, plan);
            let h = report.commit_hash->0;
            let commit = end.store.commits[h];
            let tree = end.store.trees[commit.tree];
            &&& end.result == Some(Ok::<Report, ProcedureError>(report))
            &&& report.commit_hash is Some
            &&& report.lfs_available == (tool_run == Some(true))
            &&& end.store.exists
            &&& end.store.head == Some(h)
            &&& commit.parent == store.head
            &&& commit.message@ == INITIAL_COMMIT_MESSAGE@
            &&& tree.contains_key(POLICY_PATH@)
            &&& tree.contains_key(README_PATH@)
        }),
{
    lemma_bootstrap_is_committed();
    assert(task_models(plan.tasks@)[0] == plan.tasks@[0]@);
    lemma_created_repository_exists(store, plan.tasks@, 0);
    assert(texts(plan.paths@).len() == 2);
    lemma_committed_paths_are_on_disk(store, plan);
    lemma_procedure_commits(store, names, tool_run, plan);
    lemma_procedure_commits_once(store, names, tool_run, plan);
    assert(texts(plan.paths@)[0] == plan.paths@[0]@);
    assert(texts(plan.paths@)[1] == plan.paths@[1]@);
}

/// Plans one directory of the skeleton.
fn plan_directory(path: &str) -> (planned: PlannedTask)
    ensures
        planned@ == skeleton_directory(path@),
{
    let mut failure = concat2("Failed to create directory ", path);
    failure.append(": ");
    ensure_directory(path, failure.as_str())
}

/// Plans one file of the skeleton.
fn plan_file(path: &str, content: &str) -> (planned: PlannedTask)
    ensures
        planned@ == skeleton_file(path@, content@),
{
    let mut failure = concat2("Failed to write ", path);
    failure.append(": ");
    write_file(path, content, failure.as_str())
}

/// Plans the bootstrap of a project in the directory that `probe`
/// describes. The directory must exist, be a directory, hold no repository,
/// be readable and hold no entry but hidden ones; the first condition that
/// fails, in this order, refuses it, and then nothing is created. An eligible directory
/// gets the fixed layout and its first commit.
pub fn initialize_git(probe: &TargetProbe) -> (r: Result<Procedure, String>)
    ensures
        match r {
            Ok(plan) => target_fault(*probe) is None && plan@ == bootstrap_plan(),
            Err(e) => target_fault(*probe) == Some(e@),
        },
{
    if !probe.exists {
        return Err("Directory does not exist".to_owned());
    }
    if !probe.is_directory {
        return Err("Path is not a directory".to_owned());
    }
    if probe.has_repository {
        return Err("Directory already contains a Git repository (.git exists)".to_owned());
    }
    match &probe.entries {
        Listing::Unreadable { cause } => {
            return Err(concat2("Failed to read directory: ", cause.as_str()));
        },
        Listing::UnreadableEntry { cause } => {
            return Err(concat2("Failed to read directory entry: ", cause.as_str()));
        },
        Listing::Entries { names } => {
            let visible = count_visible(names);
            if visible > 0 {
                let mut message =
                    "Directory must be empty to initialize a new project. Found ".to_owned();
                push_decimal(&mut message, visible as u128);
                message.append(" file(s)/folder(s).");
                return Err(message);
            }
        },
    }
    let mut tasks: Vec<PlannedTask> = Vec::new();
    tasks.push(
        PlannedTask {
            task: Task::CreateRepository,
            failure: "Failed to initialize Git repository: ".to_owned(),
        },
    );
    tasks.push(plan_directory("context"));
    tasks.push(plan_directory("decisions"));
    tasks.push(plan_directory("experiments"));
    tasks.push(plan_file(POLICY_PATH, POLICY));
    tasks.push(plan_file(README_PATH, README));
    let mut paths: Vec<String> = Vec::new();
    paths.push(POLICY_PATH.to_owned());
    paths.push(README_PATH.to_owned());
    let plan = Procedure {
        tasks,
        probe_large_objects: true,
        paths,
        commit_message: INITIAL_COMMIT_MESSAGE.to_owned(),
        commit_required: true,
    };
    assert(plan@.tasks =~= bootstrap_plan().tasks);
    assert(plan@.paths =~= bootstrap_plan().paths);
    Ok(plan)
}

/// Decides whether the large-object tool is available from what running it
/// gave: `Some` with whether it reported success, `None` when it could not
/// be started. A missing tool is an answer, not an error.
pub fn detect_git_lfs(tool_run: Option<bool>) -> (r: Result<bool, String>)
    ensures
        r == Ok::<bool, String>(tool_run == Some(true)),
{
    match tool_run {
        Some(succeeded) => Ok(succeeded),
        None => Ok(false),
    }
}

/// What bootstrapping reports for the project at `path` once its
/// procedure has ended well: the first commit and whether the large-object
/// tool is available.
pub fn bootstrap_outcome(path: String, report: Report) -> (result: GitInitResult)
    ensures
        result.success,
        result.path == path,
        result.lfs_available == report.lfs_available,
        result.commit_hash == report.commit_hash,
{
    GitInitResult {
        success: true,
        path,
        lfs_available: report.lfs_available,
        commit_hash: report.commit_hash,
    }
}

/// A file of a project, as it is listed.
#[derive(Debug, Clone)]
pub struct ProjectFile {
    /// Path relative to the project root.
    pub path: String,
    pub name: String,
    /// Extension in lowercase, empty when the file has none.
    pub extension: String,
    pub size: u64,
    /// Whether the file is of a kind that can be uploaded as context.
    pub is_supported: bool,
}

/// What is known of one entry met while walking a project directory.
#[derive(Debug, Clone)]
pub struct EntryFacts {
    /// Path relative to the project root.
    pub relative_path: String,
    /// Last component of the path, when it has one that is valid text.
    pub name: Option<String>,
    /// Extension of the name, when it has one that is valid text.
    pub extension: Option<String>,
    pub is_directory: bool,
    pub is_file: bool,
    /// Size in bytes, when it could be read.
    pub size: Option<u64>,
}

/// What the walk does with an entry.
#[derive(Debug, Clone)]
pub enum Visit {
    /// The entry is passed over.
    Skip,
    /// The entry is a directory whose entries are visited in turn.
    Descend,
    /// The entry is a file of the listing.
    Record { file: ProjectFile },
}

/// The kinds of file that can be uploaded as context.
pub open spec fn supported_extension(extension: Seq<char>) -> bool {
    extension == "csv"@ || extension == "pdf"@ || extension == "xlsx"@ || extension == "xls"@
}

/// Decides whether a lowercase extension is of a supported kind.
pub fn is_supported_extension(extension: &str) -> (b: bool)
    ensures
        b == supported_extension(extension@),
{
    same_text(extension, "csv") || same_text(extension, "pdf") || same_text(extension, "xlsx")
        || same_text(extension, "xls")
}

/// The extension under which a file is listed.
pub open spec fn listed_extension(extension: Option<String>) -> Seq<char> {
    match extension {
        Some(e) => lowercase(e@),
        None => Seq::<char>::empty(),
    }
}

/// Why a directory cannot be listed, if it cannot.
pub open spec fn listing_fault(exists: bool, is_directory: bool) -> Option<Seq<char>> {
    if !exists {
        Some("Project directory does not exist"@)
    } else if !is_directory {
        Some("Path is not a directory"@)
    } else {
        None
    }
}

/// Checks that a project directory can be listed.
pub fn check_project_directory(exists: bool, is_directory: bool) -> (r: Result<(), String>)
    ensures
        match r {
            Ok(_) => listing_fault(exists, is_directory) is None,
            Err(e) => listing_fault(exists, is_directory) == Some(e@),
        },
{
    if !exists {
        return Err("Project directory does not exist".to_owned());
    }
    if !is_directory {
        return Err("Path is not a directory".to_owned());
    }
    Ok(())
}

/// Decides what the walk of a project directory does with an entry: hidden
/// entries are passed over, directories are walked, files are listed with
/// their extension in lowercase, and anything else is passed over. A file
/// without readable name is listed as `unknown`, one without readable size
/// with size 0.
pub fn visit_entry(entry: EntryFacts) -> (visit: Visit)
    ensures
        match visit {
            Visit::Skip => (entry.name matches Some(n) && hidden(n@)) || (!entry.is_directory
                && !entry.is_file),
            Visit::Descend => !(entry.name matches Some(n) && hidden(n@)) && entry.is_directory,
            Visit::Record { file } => {
                &&& !(entry.name matches Some(n) && hidden(n@))
                &&& !entry.is_directory && entry.is_file
                &&& file.path == entry.relative_path
                &&& file.name@ == match entry.name {
                    Some(n) => n@,
                    None => "unknown"@,
                }
                &&& file.extension@ == listed_extension(entry.extension)
                &&& file.size == match entry.size {
                    Some(s) => s,
                    None => 0,
                }
                &&& file.is_supported == supported_extension(file.extension@)
            },
        },
{
    let EntryFacts { relative_path, name, extension, is_directory, is_file, size } = entry;
    let is_hidden_entry = match &name {
        Some(n) => is_hidden(n.as_str()),
        None => false,
    };
    if is_hidden_entry {
        return Visit::Skip;
    }
    if is_directory {
        return Visit::Descend;
    }
    if !is_file {
        return Visit::Skip;
    }
    let extension = match extension {
        Some(e) => e.as_str().to_lowercase(),
        None => String::new(),
    };
    let is_supported = is_supported_extension(extension.as_str());
    let name = match name {
        Some(n) => n,
        None => "unknown".to_owned(),
    };
    let size = match size {
        Some(s) => s,
        None => 0,
    };
    Visit::Record { file: ProjectFile { path: relative_path, name, extension, size, is_supported } }
}

} // verus!
