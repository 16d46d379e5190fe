//! Procedures on a project directory: pieces of work that are done in
//! order, and one commit transaction over what they wrote.
//!
//! Every ingestion and the bootstrap of a project are such procedures. A
//! procedure owns the decisions: which piece of work comes next, what ends
//! it, and whether a commit that failed counts against it. The caller does
//! the work and says how it went.

use vstd::prelude::*;
use crate::git::CommitError;
use crate::text::texts;

verus! {

/// One piece of work on the project directory.
#[derive(Debug, Clone)]
pub enum Task {
    /// Create an empty repository in the project directory.
    CreateRepository,
    /// Create the directory at `path`, relative to the project directory,
    /// and those above it, unless it is there.
    EnsureDirectory { path: String },
    /// Write `content` to the file at `path`, relative to the project
    /// directory.
    WriteFile { path: String, content: String },
}

/// A piece of work and what the error says before the cause when it
/// fails.
#[derive(Debug, Clone)]
pub struct PlannedTask {
    pub task: Task,
    pub failure: String,
}

/// What a procedure does: the tasks, in order; then, if asked for, a look
/// for the large-object tool; then one commit transaction.
#[derive(Debug, Clone)]
pub struct Procedure {
    pub tasks: Vec<PlannedTask>,
    /// Whether the large-object tool is looked for before the commit.
    pub probe_large_objects: bool,
    /// The paths handed to the commit transaction.
    pub paths: Vec<String>,
    pub commit_message: String,
    /// Whether a commit that failed fails the procedure.
    pub commit_required: bool,
}

/// A `Task` as the texts it holds.
pub enum TaskModel {
    CreateRepository,
    EnsureDirectory { path: Seq<char> },
    WriteFile { path: Seq<char>, content: Seq<char> },
}

/// A `PlannedTask` as the texts it holds.
pub struct PlannedTaskModel {
    pub task: TaskModel,
    pub failure: Seq<char>,
}

/// A `Procedure` as the texts it holds.
pub struct ProcedureModel {
    pub tasks: Seq<PlannedTaskModel>,
    pub probe_large_objects: bool,
    pub paths: Seq<Seq<char>>,
    pub commit_message: Seq<char>,
    pub commit_required: bool,
}

impl View for Task {
    type V = TaskModel;

    open spec fn view(&self) -> TaskModel {
        match *self {
            Task::CreateRepository => TaskModel::CreateRepository,
            Task::EnsureDirectory { path } => TaskModel::EnsureDirectory { path: path@ },
            Task::WriteFile { path, content } => TaskModel::WriteFile {
                path: path@,
                content: content@,
            },
        }
    }
}

impl View for PlannedTask {
    type V = PlannedTaskModel;

    open spec fn view(&self) -> PlannedTaskModel {
        PlannedTaskModel { task: self.task@, failure: self.failure@ }
    }
}

/// The tasks of a list, each as the texts it holds.
pub open spec fn task_models(tasks: Seq<PlannedTask>) -> Seq<PlannedTaskModel> {
    Seq::new(tasks.len(), |i: int| tasks[i]@)
}

impl View for Procedure {
    type V = ProcedureModel;

    open spec fn view(&self) -> ProcedureModel {
        ProcedureModel {
            tasks: task_models(self.tasks@),
            probe_large_objects: self.probe_large_objects,
            paths: texts(self.paths@),
            commit_message: self.commit_message@,
            commit_required: self.commit_required,
        }
    }
}

/// The task that ensures the directory `path`.
pub open spec fn directory_task(path: Seq<char>, failure: Seq<char>) -> PlannedTaskModel {
    PlannedTaskModel { task: TaskModel::EnsureDirectory { path }, failure }
}

/// The task that writes `content` to the file `path`.
pub open spec fn file_task(path: Seq<char>, content: Seq<char>, failure: Seq<char>) -> PlannedTaskModel {
    PlannedTaskModel { task: TaskModel::WriteFile { path, content }, failure }
}

/// The paths of the files that the tasks write, in order.
pub open spec fn written(tasks: Seq<PlannedTaskModel>) -> Seq<Seq<char>>
    decreases tasks.len(),
{
    if tasks.len() == 0 {
        Seq::<Seq<char>>::empty()
    } else {
        match tasks.last().task {
            TaskModel::WriteFile { path, content } => written(tasks.drop_last()).push(path),
            _ => written(tasks.drop_last()),
        }
    }
}

/// A task that writes a file adds its path to what is written; any other
/// task adds nothing.
pub proof fn lemma_written_push(tasks: Seq<PlannedTaskModel>, task: PlannedTaskModel)
    ensures
        written(tasks.push(task)) == match task.task {
            TaskModel::WriteFile { path, content } => written(tasks).push(path),
            _ => written(tasks),
        },
{
    assert(tasks.push(task).drop_last() =~= tasks);
    assert(tasks.push(task).last() == task);
}

/// A directory and a file in it: what is written is the file.
pub proof fn lemma_written_pair(directory: PlannedTaskModel, file: PlannedTaskModel)
    requires
        directory.task is EnsureDirectory,
        file.task is WriteFile,
    ensures
        written(seq![directory, file]) == seq![file.task->WriteFile_path],
{
    let none = Seq::<PlannedTaskModel>::empty();
    lemma_written_push(none, directory);
    lemma_written_push(none.push(directory), file);
    assert(none.push(directory).push(file) =~= seq![directory, file]);
    assert(written(none) =~= Seq::<Seq<char>>::empty());
    assert(Seq::<Seq<char>>::empty().push(file.task->WriteFile_path) =~= seq![
        file.task->WriteFile_path,
    ]);
}

/// Plans the task that ensures a directory.
pub fn ensure_directory(path: &str, failure: &str) -> (planned: PlannedTask)
    ensures
        planned@ == directory_task(path@, failure@),
{
    PlannedTask { task: Task::EnsureDirectory { path: path.to_owned() }, failure: failure.to_owned() }
}

/// Plans the task that writes a file.
pub fn write_file(path: &str, content: &str, failure: &str) -> (planned: PlannedTask)
    ensures
        planned@ == file_task(path@, content@, failure@),
{
    PlannedTask {
        task: Task::WriteFile { path: path.to_owned(), content: content.to_owned() },
        failure: failure.to_owned(),
    }
}

/// Why a procedure ended without success.
#[derive(Debug, Clone)]
pub enum ProcedureError {
    /// A task failed: what the task says of its failure, and the cause.
    TaskFailed { failure: String, cause: String },
    /// The commit was required and failed.
    CommitFailed { error: CommitError },
    /// A request was answered with a reply of another kind.
    UnexpectedReply,
}

impl ProcedureError {
    /// The text shown for this error.
    pub open spec fn text(self) -> Seq<char> {
        match self {
            ProcedureError::TaskFailed { failure, cause } => failure@ + cause@,
            ProcedureError::CommitFailed { error } => error.text(),
            ProcedureError::UnexpectedReply => "Unexpected reply to a request of a procedure"@,
        }
    }

    /// Renders the error for display.
    pub fn to_string(&self) -> (s: String)
        ensures
            s@ == self.text(),
    {
        match self {
            ProcedureError::TaskFailed { failure, cause } => {
                let mut s = failure.clone();
                s.append(cause.as_str());
                s
            },
            ProcedureError::CommitFailed { error } => error.to_string(),
            ProcedureError::UnexpectedReply =>
                "Unexpected reply to a request of a procedure".to_owned(),
        }
    }
}

/// One operation asked of the caller.
#[derive(Debug, Clone)]
pub enum Request {
    /// Do the task.
    Perform { task: Task },
    /// Run the large-object tool and say whether it reported success.
    ProbeLargeObjects,
    /// Run a commit transaction over `paths` under `message`.
    Commit { paths: Vec<String>, message: String },
}

/// How the caller answered a request.
#[derive(Debug)]
pub enum Reply {
    /// The task was done.
    Done,
    /// The task failed.
    Failed { cause: String },
    /// What running the large-object tool gave: whether it reported
    /// success, or `None` when it could not be started.
    Probed { tool_run: Option<bool> },
    /// How the commit transaction ended.
    Committed { outcome: Result<String, CommitError> },
}

/// What a procedure has done when it ends well.
#[derive(Debug, Clone)]
pub struct Report {
    /// The tasks that were done: all of the procedure's.
    pub performed: Vec<PlannedTask>,
    /// The identifier of the commit, or `None` when the commit failed and
    /// was not required.
    pub commit_hash: Option<String>,
    /// Whether the large-object tool was looked for and found.
    pub lfs_available: bool,
}

/// A procedure in flight, by what it is waiting for.
#[derive(Debug, Clone)]
pub enum Run {
    /// A task is being done: `failure` is what its error says before the
    /// cause, `next` the position of the task after it.
    Working { procedure: Procedure, failure: String, next: usize },
    /// The large-object tool is being looked for.
    Probing { procedure: Procedure },
    /// The commit transaction is running.
    Committing { performed: Vec<PlannedTask>, required: bool, lfs_available: bool },
}

/// Where a procedure stands after a move.
#[derive(Debug)]
pub enum Step {
    /// The caller is asked for `request`; the reply goes to `advance`.
    Ask { run: Run, request: Request },
    /// The procedure is over.
    Finished { outcome: Result<Report, ProcedureError> },
}

/// The step that asks for the commit, once every task is done.
pub open spec fn commit_step(procedure: Procedure, lfs_available: bool) -> Step {
    Step::Ask {
        run: Run::Committing {
            performed: procedure.tasks,
            required: procedure.commit_required,
            lfs_available,
        },
        request: Request::Commit { paths: procedure.paths, message: procedure.commit_message },
    }
}

/// The step taken once the tasks before `position` are done: the task at
/// `position`, or, when none is left, the look for the large-object tool
/// if the procedure asks for one, or else the commit.
pub open spec fn step_from(procedure: Procedure, position: usize) -> Step {
    if position < procedure.tasks@.len() {
        Step::Ask {
            run: Run::Working {
                procedure,
                failure: procedure.tasks@[position as int].failure,
                next: (position + 1) as usize,
            },
            request: Request::Perform { task: procedure.tasks@[position as int].task },
        }
    } else if procedure.probe_large_objects {
        Step::Ask { run: Run::Probing { procedure }, request: Request::ProbeLargeObjects }
    } else {
        commit_step(procedure, false)
    }
}

/// The step that ends a procedure with `error`.
pub open spec fn failed(error: ProcedureError) -> Step {
    Step::Finished { outcome: Err(error) }
}

/// The step that follows `reply` in `run`.
///
/// The first task that fails ends the procedure, with the error of that
/// task, before anything is committed. A large-object tool that is missing
/// or cannot be run is reported and fails nothing. A commit that failed
/// fails the procedure that requires it; any other procedure ends well,
/// with what it wrote and without a commit.
pub open spec fn next_step(run: Run, reply: Reply) -> Step {
    match run {
        Run::Working { procedure, failure, next } => match reply {
            Reply::Done => step_from(procedure, next),
            Reply::Failed { cause } => failed(ProcedureError::TaskFailed { failure, cause }),
            _ => failed(ProcedureError::UnexpectedReply),
        },
        Run::Probing { procedure } => match reply {
            Reply::Probed { tool_run } => commit_step(procedure, tool_run == Some(true)),
            _ => commit_step(procedure, false),
        },
        Run::Committing { performed, required, lfs_available } => match reply {
            Reply::Committed { outcome: Ok(id) } => Step::Finished {
                outcome: Ok(Report { performed, commit_hash: Some(id), lfs_available }),
            },
            Reply::Committed { outcome: Err(error) } => if required {
                failed(ProcedureError::CommitFailed { error })
            } else {
                Step::Finished {
                    outcome: Ok(Report { performed, commit_hash: None, lfs_available }),
                }
            },
            _ => failed(ProcedureError::UnexpectedReply),
        },
    }
}

/// Copies a task.
fn copy_task(task: &Task) -> (copy: Task)
    ensures
        copy == *task,
{
    match task {
        Task::CreateRepository => Task::CreateRepository,
        Task::EnsureDirectory { path } => Task::EnsureDirectory { path: path.clone() },
        Task::WriteFile { path, content } => Task::WriteFile {
            path: path.clone(),
            content: content.clone(),
        },
    }
}

/// Asks for the commit.
fn ask_commit(procedure: Procedure, lfs_available: bool) -> (step: Step)
    ensures
        step == commit_step(procedure, lfs_available),
{
    let Procedure { tasks, probe_large_objects, paths, commit_message, commit_required } =
        procedure;
    Step::Ask {
        run: Run::Committing { performed: tasks, required: commit_required, lfs_available },
        request: Request::Commit { paths, message: commit_message },
    }
}

/// Asks for the task at `position`, or for what follows the last task.
fn ask_from(procedure: Procedure, position: usize) -> (step: Step)
    ensures
        step == step_from(procedure, position),
{
    if position < procedure.tasks.len() {
        let failure = procedure.tasks[position].failure.clone();
        let task = copy_task(&procedure.tasks[position].task);
        Step::Ask {
            run: Run::Working { procedure, failure, next: position + 1 },
            request: Request::Perform { task },
        }
    } else if procedure.probe_large_objects {
        Step::Ask { run: Run::Probing { procedure }, request: Request::ProbeLargeObjects }
    } else {
        ask_commit(procedure, false)
    }
}

impl Procedure {
    /// Starts the procedure.
    pub fn begin(self) -> (step: Step)
        ensures
            step == step_from(self, 0),
    {
        ask_from(self, 0)
    }
}

impl Run {
    /// Takes the reply to the pending request and decides what follows.
    pub fn advance(self, reply: Reply) -> (step: Step)
        ensures
            step == next_step(self, reply),
    {
        match self {
            Run::Working { procedure, failure, next } => match reply {
                Reply::Done => ask_from(procedure, next),
                Reply::Failed { cause } => Step::Finished {
                    outcome: Err(ProcedureError::TaskFailed { failure, cause }),
                },
                _ => Step::Finished { outcome: Err(ProcedureError::UnexpectedReply) },
            },
            Run::Probing { procedure } => match reply {
                Reply::Probed { tool_run } => {
                    let found = match tool_run {
                        Some(succeeded) => succeeded,
                        None => false,
                    };
                    ask_commit(procedure, found)
                },
                _ => ask_commit(procedure, false),
            },
            Run::Committing { performed, required, lfs_available } => match reply {
                Reply::Committed { outcome } => match outcome {
                    Ok(id) => Step::Finished {
                        outcome: Ok(Report { performed, commit_hash: Some(id), lfs_available }),
                    },
                    Err(error) => if required {
                        Step::Finished { outcome: Err(ProcedureError::CommitFailed { error }) }
                    } else {
                        Step::Finished {
                            outcome: Ok(Report { performed, commit_hash: None, lfs_available }),
                        }
                    },
                },
                _ => Step::Finished { outcome: Err(ProcedureError::UnexpectedReply) },
            },
        }
    }
}

impl Report {
    /// The paths of the files that were written, in order: what an
    /// ingestion returns to its caller, whether or not they were committed.
    pub fn written_paths(&self) -> (paths: Vec<String>)
        ensures
            texts(paths@) == written(task_models(self.performed@)),
    {
        let mut paths: Vec<String> = Vec::new();
        let mut i: usize = 0;
        while i < self.performed.len()
            invariant
                i <= self.performed@.len(),
                texts(paths@) == written(task_models(self.performed@).take(i as int)),
            decreases self.performed@.len() - i,
        {
            proof {
                let now = task_models(self.performed@).take(i + 1);
                assert(now.drop_last() =~= task_models(self.performed@).take(i as int));
                assert(now.last() == self.performed@[i as int]@);
            }
            let ghost before = texts(paths@);
            match &self.performed[i].task {
                Task::WriteFile { path, content } => {
                    paths.push(path.clone());
                    assert(texts(paths@) =~= before.push(path@));
                },
                _ => {},
            }
            i += 1;
        }
        assert(task_models(self.performed@).take(self.performed@.len() as int) =~= task_models(
            self.performed@,
        ));
        paths
    }
}

/// Where a procedure stands once the caller has given `replies`, one for
/// each request, in order; replies past its end are not looked at.
pub open spec fn after(step: Step, replies: Seq<Reply>) -> Step
    decreases replies.len(),
{
    if replies.len() == 0 {
        step
    } else {
        match step {
            Step::Finished { outcome } => step,
            Step::Ask { run, request } => after(next_step(run, replies[0]), replies.drop_first()),
        }
    }
}

/// The number of times that a procedure asks for a commit while it is
/// given `replies`, the pending request of `step` included.
pub open spec fn commits_asked(step: Step, replies: Seq<Reply>) -> nat
    decreases replies.len(),
{
    match step {
        Step::Finished { outcome } => 0,
        Step::Ask { run, request } => (if request is Commit {
            1nat
        } else {
            0nat
        }) + (if replies.len() == 0 {
            0nat
        } else {
            commits_asked(next_step(run, replies[0]), replies.drop_first())
        }),
    }
}

/// The most replies that a procedure can still take.
pub open spec fn replies_left(step: Step) -> nat {
    match step {
        Step::Finished { outcome } => 0,
        Step::Ask { run, request } => match run {
            Run::Working { procedure, failure, next } => if next <= procedure.tasks@.len() {
                (procedure.tasks@.len() - next + 3) as nat
            } else {
                3
            },
            Run::Probing { procedure } => 2,
            Run::Committing { performed, required, lfs_available } => 1,
        },
    }
}

/// A commit is asked for in the last phase and in no other.
pub open spec fn commit_is_last(step: Step) -> bool {
    match step {
        Step::Finished { outcome } => true,
        Step::Ask { run, request } => request is Commit <==> run is Committing,
    }
}

/// Every reply brings a procedure closer to its end.
proof fn lemma_reply_advances(run: Run, request: Request, reply: Reply)
    ensures
        replies_left(next_step(run, reply)) < replies_left(Step::Ask { run, request }),
        commit_is_last(next_step(run, reply)),
        run is Committing ==> next_step(run, reply) is Finished,
{
    match run {
        Run::Working { procedure, failure, next } => {
            assert(procedure.tasks.len() == procedure.tasks@.len());
        },
        _ => {},
    }
}

/// A procedure is over once it has had as many replies as it could take.
proof fn lemma_ends(step: Step, replies: Seq<Reply>)
    requires
        replies.len() >= replies_left(step),
    ensures
        after(step, replies) is Finished,
    decreases replies.len(),
{
    match step {
        Step::Finished { outcome } => {},
        Step::Ask { run, request } => {
            lemma_reply_advances(run, request, replies[0]);
            lemma_ends(next_step(run, replies[0]), replies.drop_first());
        },
    }
}

/// From a step where a commit is asked for in the last phase only, a
/// commit is asked for once at most.
proof fn lemma_commits_once(step: Step, replies: Seq<Reply>)
    requires
        commit_is_last(step),
    ensures
        commits_asked(step, replies) <= 1,
    decreases replies.len(),
{
    match step {
        Step::Finished { outcome } => {},
        Step::Ask { run, request } => {
            if replies.len() > 0 {
                lemma_reply_advances(run, request, replies[0]);
                lemma_commits_once(next_step(run, replies[0]), replies.drop_first());
            }
        },
    }
}

/// One procedure, one commit: whatever the caller replies, a procedure of
/// `n` tasks is over after `n + 2` replies at most and asks for a commit
/// once at most, however many files it writes.
pub proof fn lemma_one_commit(procedure: Procedure, replies: Seq<Reply>)
    ensures
        replies.len() >= procedure.tasks@.len() + 2 ==> after(step_from(procedure, 0), replies)
            is Finished,
        commits_asked(step_from(procedure, 0), replies) <= 1,
{
    assert(procedure.tasks.len() == procedure.tasks@.len());
    if replies.len() >= procedure.tasks@.len() + 2 {
        lemma_ends(step_from(procedure, 0), replies);
    }
    lemma_commits_once(step_from(procedure, 0), replies);
}

/// No task is skipped: while every task succeeds, the tasks are asked for
/// one by one, in their order, and the commit is asked for after the last
/// of them, over the paths and under the message of the procedure.
pub proof fn lemma_tasks_run_in_order(procedure: Procedure, k: int)
    requires
        0 <= k <= procedure.tasks@.len(),
    ensures
        after(step_from(procedure, 0), Seq::new(k as nat, |i: int| Reply::Done)) == step_from(
            procedure,
            k as usize,
        ),
        k < procedure.tasks@.len() ==> (step_from(procedure, k as usize) matches Step::Ask {
            request: Request::Perform { task },
            ..
        } && task == procedure.tasks@[k].task),
        k == procedure.tasks@.len() && !procedure.probe_large_objects ==> (step_from(
            procedure,
            k as usize,
        ) matches Step::Ask { request: Request::Commit { paths, message }, .. } && paths
            == procedure.paths && message == procedure.commit_message),
    decreases k,
{
    assert(procedure.tasks.len() == procedure.tasks@.len());
    let replies = Seq::new(k as nat, |i: int| Reply::Done);
    if k > 0 {
        lemma_tasks_run_in_order(procedure, k - 1);
        let shorter = Seq::new((k - 1) as nat, |i: int| Reply::Done);
        lemma_after_one_more(step_from(procedure, 0), shorter, Reply::Done);
        assert(shorter.push(Reply::Done) =~= replies);
    }
}

/// Taking one more reply is moving once more.
proof fn lemma_after_one_more(step: Step, replies: Seq<Reply>, reply: Reply)
    ensures
        after(step, replies.push(reply)) == match after(step, replies) {
            Step::Finished { outcome } => after(step, replies),
            Step::Ask { run, request } => next_step(run, reply),
        },
    decreases replies.len(),
{
    let longer = replies.push(reply);
    assert(longer.len() > 0);
    assert(longer[0] == if replies.len() == 0 {
        reply
    } else {
        replies[0]
    });
    match step {
        Step::Finished { outcome } => {
            assert(after(step, longer) == step);
            assert(after(step, replies) == step);
        },
        Step::Ask { run, request } => {
            if replies.len() == 0 {
                assert(longer.drop_first() =~= Seq::<Reply>::empty());
                assert(after(step, longer) == after(next_step(run, reply), longer.drop_first()));
                assert(after(next_step(run, reply), Seq::<Reply>::empty()) == next_step(
                    run,
                    reply,
                ));
                assert(after(step, replies) == step);
            } else {
                assert(longer.drop_first() =~= replies.drop_first().push(reply));
                lemma_after_one_more(next_step(run, replies[0]), replies.drop_first(), reply);
                assert(after(step, longer) == after(
                    next_step(run, replies[0]),
                    longer.drop_first(),
                ));
                assert(after(step, replies) == after(
                    next_step(run, replies[0]),
                    replies.drop_first(),
                ));
            }
        },
    }
}

/// A file that is saved stays saved: a procedure that does not require its
/// commit ends well whether the commit succeeds or fails, and reports
/// every task as done; a procedure that requires its commit fails with the
/// error of the transaction.
pub proof fn lemma_commit_failure(
    performed: Vec<PlannedTask>,
    required: bool,
    lfs_available: bool,
    error: CommitError,
)
    ensures
        next_step(
            Run::Committing { performed, required, lfs_available },
            Reply::Committed { outcome: Err(error) },
        ) == (if required {
            failed(ProcedureError::CommitFailed { error })
        } else {
            Step::Finished { outcome: Ok(Report { performed, commit_hash: None, lfs_available }) }
        }),
{
}

/// The first task that fails ends a procedure before its commit: the
/// error says which task failed and why, and nothing further is asked for.
pub proof fn lemma_failed_task_ends(procedure: Procedure, failure: String, next: usize, cause: String)
    ensures
        next_step(Run::Working { procedure, failure, next }, Reply::Failed { cause }) == failed(
            ProcedureError::TaskFailed { failure, cause },
        ),
        commits_asked(
            next_step(Run::Working { procedure, failure, next }, Reply::Failed { cause }),
            Seq::<Reply>::empty(),
        ) == 0,
{
}

/// A procedure that requires its commit ends well only with a commit: its
/// report names the commit.
pub proof fn lemma_required_commit_is_reported(
    performed: Vec<PlannedTask>,
    lfs_available: bool,
    reply: Reply,
)
    ensures
        next_step(Run::Committing { performed, required: true, lfs_available }, reply)
            matches Step::Finished { outcome: Ok(report) } ==> report.commit_hash is Some
            && report.performed == performed && report.lfs_available == lfs_available,
{
}

} // verus!
