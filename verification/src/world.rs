//! A project directory and its repository together, as a model, and what a
//! procedure does to them when its tasks succeed: the files are written to
//! the directory, and the commit transaction runs against the repository.
//!
//! The laws of this file join what the procedure, the transaction and the
//! store are proved to do one by one.

use vstd::prelude::*;
use vstd::utf8::encode_utf8;
use crate::procedure::{
    commit_step,
    next_step,
    step_from,
    task_models,
    written,
    PlannedTask,
    PlannedTaskModel,
    Procedure,
    ProcedureError,
    Reply,
    Report,
    Request,
    Run,
    Step,
    Task,
    TaskModel,
};
use crate::store::{
    all_on_disk,
    commit_paths,
    committed,
    is_one_line,
    lemma_commit_succeeds,
    lemma_history_grows_by_one,
    lemma_round_trip,
    new_commit,
    tells_commits_apart,
    Naming,
    Store,
};
use crate::text::{blank, texts};

verus! {

/// What a task does to a project when it succeeds: a repository comes to
/// be, or a file gets its content; a directory is no file and changes
/// nothing that is committed.
pub open spec fn done(store: Store, task: Task) -> Store {
    match task {
        Task::CreateRepository => Store { exists: true, ..store },
        Task::EnsureDirectory { path } => store,
        Task::WriteFile { path, content } => Store {
            worktree: store.worktree.insert(path@, encode_utf8(content@)),
            ..store
        },
    }
}

/// The project once the tasks are done, one after the other.
pub open spec fn prepared(store: Store, tasks: Seq<PlannedTask>) -> Store
    decreases tasks.len(),
{
    if tasks.len() == 0 {
        store
    } else {
        prepared(done(store, tasks[0].task), tasks.drop_first())
    }
}

/// A project after a request, and its reply.
pub struct Reaction {
    pub store: Store,
    pub reply: Reply,
}

/// How a project answers a request of a procedure when every task
/// succeeds: the task is done; the large-object tool runs as `tool_run`
/// says; the commit transaction runs against the repository and ends as
/// the repository lets it.
pub open spec fn react(
    store: Store,
    names: Naming,
    tool_run: Option<bool>,
    request: Request,
) -> Reaction {
    match request {
        Request::Perform { task } => Reaction { store: done(store, task), reply: Reply::Done },
        Request::ProbeLargeObjects => Reaction { store, reply: Reply::Probed { tool_run } },
        Request::Commit { paths, message } => {
            let out = commit_paths(store, names, paths, message);
            Reaction {
                store: out.store,
                reply: match out.result {
                    Some(outcome) => Reply::Committed { outcome },
                    None => Reply::Failed { cause: names.cause },
                },
            }
        },
    }
}

/// A project after a procedure, and how the procedure ended; `None` when
/// it was cut short.
pub struct Ending {
    pub store: Store,
    pub result: Option<Result<Report, ProcedureError>>,
}

/// Carries a procedure on from `step` for at most `limit` requests.
pub open spec fn carry_out(
    store: Store,
    names: Naming,
    tool_run: Option<bool>,
    step: Step,
    limit: nat,
) -> Ending
    decreases limit,
{
    match step {
        Step::Finished { outcome } => Ending { store, result: Some(outcome) },
        Step::Ask { run, request } => if limit == 0 {
            Ending { store, result: None }
        } else {
            let r = react(store, names, tool_run, request);
            carry_out(r.store, names, tool_run, next_step(run, r.reply), (limit - 1) as nat)
        },
    }
}

/// Carries out a whole procedure: one request for each task, one for the
/// large-object tool and one for the commit at most.
pub open spec fn perform(
    store: Store,
    names: Naming,
    tool_run: Option<bool>,
    procedure: Procedure,
) -> Ending {
    carry_out(store, names, tool_run, step_from(procedure, 0), procedure.tasks@.len() + 2)
}

/// Tasks leave the repository as it is, but that one of them may create
/// it, and they take no file away.
pub proof fn lemma_tasks_keep_the_repository(store: Store, tasks: Seq<PlannedTask>)
    ensures
        prepared(store, tasks).index == store.index,
        prepared(store, tasks).trees == store.trees,
        prepared(store, tasks).commits == store.commits,
        prepared(store, tasks).history == store.history,
        prepared(store, tasks).head == store.head,
        prepared(store, tasks).configured == store.configured,
        store.exists ==> prepared(store, tasks).exists,
        forall|path: Seq<char>|
            #[trigger] store.worktree.contains_key(path) ==> prepared(
                store,
                tasks,
            ).worktree.contains_key(path),
    decreases tasks.len(),
{
    if tasks.len() > 0 {
        let first = done(store, tasks[0].task);
        lemma_tasks_keep_the_repository(first, tasks.drop_first());
        assert forall|path: Seq<char>| #[trigger]
            store.worktree.contains_key(path) implies prepared(store, tasks).worktree.contains_key(
            path,
        ) by {
            assert(first.worktree.contains_key(path));
        }
    }
}

/// Once a task has created the repository, the project has one.
pub proof fn lemma_created_repository_exists(store: Store, tasks: Seq<PlannedTask>, i: int)
    requires
        0 <= i < tasks.len(),
        tasks[i].task is CreateRepository,
    ensures
        prepared(store, tasks).exists,
    decreases tasks.len(),
{
    let first = done(store, tasks[0].task);
    if i == 0 {
        lemma_tasks_keep_the_repository(first, tasks.drop_first());
    } else {
        assert(tasks.drop_first()[i - 1] == tasks[i]);
        lemma_created_repository_exists(first, tasks.drop_first(), i - 1);
    }
}

/// A file that a task writes is on disk once the tasks are done.
pub proof fn lemma_written_file_is_on_disk(store: Store, tasks: Seq<PlannedTask>, i: int)
    requires
        0 <= i < tasks.len(),
        tasks[i].task is WriteFile,
    ensures
        prepared(store, tasks).worktree.contains_key(tasks[i].task->WriteFile_path@),
    decreases tasks.len(),
{
    let first = done(store, tasks[0].task);
    if i == 0 {
        lemma_tasks_keep_the_repository(first, tasks.drop_first());
        assert(first.worktree.contains_key(tasks[0].task->WriteFile_path@));
    } else {
        assert(tasks.drop_first()[i - 1] == tasks[i]);
        lemma_written_file_is_on_disk(first, tasks.drop_first(), i - 1);
    }
}

/// Every path that is reported as written is the path of a task that
/// writes a file.
proof fn lemma_written_has_a_writer(tasks: Seq<PlannedTaskModel>, j: int) -> (i: int)
    requires
        0 <= j < written(tasks).len(),
    ensures
        0 <= i < tasks.len(),
        tasks[i].task matches TaskModel::WriteFile { path, content } && path == written(tasks)[j],
    decreases tasks.len(),
{
    match tasks.last().task {
        TaskModel::WriteFile { path, content } => {
            if j == written(tasks.drop_last()).len() {
                tasks.len() - 1
            } else {
                let i = lemma_written_has_a_writer(tasks.drop_last(), j);
                assert(tasks.drop_last()[i] == tasks[i]);
                i
            }
        },
        _ => {
            let i = lemma_written_has_a_writer(tasks.drop_last(), j);
            assert(tasks.drop_last()[i] == tasks[i]);
            i
        },
    }
}

/// When a procedure commits what it writes, every path that it commits is
/// on disk once its tasks are done.
pub proof fn lemma_committed_paths_are_on_disk(store: Store, procedure: Procedure)
    requires
        written(procedure@.tasks) == procedure@.paths,
    ensures
        all_on_disk(prepared(store, procedure.tasks@).worktree, procedure.paths@),
{
    let tasks = procedure.tasks@;
    assert forall|j: int| 0 <= j < procedure.paths@.len() implies prepared(
        store,
        tasks,
    ).worktree.contains_key((#[trigger] procedure.paths@[j])@) by {
        assert(texts(procedure.paths@)[j] == procedure.paths@[j]@);
        let i = lemma_written_has_a_writer(task_models(tasks), j);
        assert(task_models(tasks)[i] == tasks[i]@);
        lemma_written_file_is_on_disk(store, tasks, i);
    }
}

/// From the point where the tasks before `k` are done, a procedure whose
/// tasks succeed does the rest of them and goes on to what follows the
/// last.
proof fn lemma_tasks_are_done(
    store: Store,
    names: Naming,
    tool_run: Option<bool>,
    procedure: Procedure,
    k: int,
    limit: nat,
)
    requires
        0 <= k <= procedure.tasks@.len(),
        procedure.tasks@.len() <= usize::MAX,
        limit >= procedure.tasks@.len() - k,
    ensures
        carry_out(store, names, tool_run, step_from(procedure, k as usize), limit) == carry_out(
            prepared(store, procedure.tasks@.subrange(k, procedure.tasks@.len() as int)),
            names,
            tool_run,
            step_from(procedure, procedure.tasks@.len() as usize),
            (limit - (procedure.tasks@.len() - k)) as nat,
        ),
    decreases procedure.tasks@.len() - k,
{
    let n = procedure.tasks@.len() as int;
    let rest = procedure.tasks@.subrange(k, n);
    if k < n {
        let task = procedure.tasks@[k].task;
        let run = Run::Working {
            procedure,
            failure: procedure.tasks@[k].failure,
            next: (k + 1) as usize,
        };
        assert(next_step(run, Reply::Done) == step_from(procedure, (k + 1) as usize));
        lemma_tasks_are_done(done(store, task), names, tool_run, procedure, k + 1, (limit - 1) as nat);
        assert(rest[0] == procedure.tasks@[k]);
        assert(rest.drop_first() =~= procedure.tasks@.subrange(k + 1, n));
    }
}

/// The report of a procedure that went through: every task done, the
/// commit made, the large-object tool found or not.
pub open spec fn full_report(
    store: Store,
    names: Naming,
    tool_run: Option<bool>,
    procedure: Procedure,
) -> Report {
    let ready = prepared(store, procedure.tasks@);
    Report {
        performed: procedure.tasks,
        commit_hash: Some(
            (names.commit_id)(new_commit(ready, names, procedure.paths, procedure.commit_message)),
        ),
        lfs_available: procedure.probe_large_objects && tool_run == Some(true),
    }
}

/// A procedure whose tasks succeed, on a project that has its repository
/// once they are done, makes its commit: the tasks are done in order, the
/// transaction commits the paths of the procedure as they are then on
/// disk, and the report names the commit.
pub proof fn lemma_procedure_commits(
    store: Store,
    names: Naming,
    tool_run: Option<bool>,
    procedure: Procedure,
)
    requires
        prepared(store, procedure.tasks@).exists,
        procedure.paths@.len() > 0,
        !blank(procedure.commit_message@),
        all_on_disk(prepared(store, procedure.tasks@).worktree, procedure.paths@),
    ensures
        perform(store, names, tool_run, procedure) == (Ending {
            store: committed(
                prepared(store, procedure.tasks@),
                names,
                procedure.paths,
                procedure.commit_message,
            ),
            result: Some(Ok(full_report(store, names, tool_run, procedure))),
        }),
{
    let n = procedure.tasks@.len();
    assert(n == procedure.tasks.len());
    let ready = prepared(store, procedure.tasks@);
    assert(procedure.tasks@.subrange(0, n as int) =~= procedure.tasks@);
    lemma_tasks_are_done(store, names, tool_run, procedure, 0, (n + 2) as nat);
    lemma_commit_succeeds(ready, names, procedure.paths, procedure.commit_message);
    let found = procedure.probe_large_objects && tool_run == Some(true);
    let id = (names.commit_id)(
        new_commit(ready, names, procedure.paths, procedure.commit_message),
    );
    let after = committed(ready, names, procedure.paths, procedure.commit_message);
    let committing = Run::Committing {
        performed: procedure.tasks,
        required: procedure.commit_required,
        lfs_available: found,
    };
    let last = next_step(committing, Reply::Committed { outcome: Ok(id) });
    assert(carry_out(after, names, tool_run, last, 0) == (Ending {
        store: after,
        result: Some(Ok(full_report(store, names, tool_run, procedure))),
    }));
    assert(carry_out(ready, names, tool_run, commit_step(procedure, found), 1) == carry_out(
        after,
        names,
        tool_run,
        last,
        0,
    ));
    if procedure.probe_large_objects {
        assert(next_step(Run::Probing { procedure }, Reply::Probed { tool_run }) == commit_step(
            procedure,
            found,
        ));
        assert(carry_out(ready, names, tool_run, step_from(procedure, n as usize), 2) == carry_out(
            ready,
            names,
            tool_run,
            commit_step(procedure, found),
            1,
        ));
    } else {
        assert(step_from(procedure, n as usize) == commit_step(procedure, false));
        assert(carry_out(ready, names, tool_run, commit_step(procedure, false), 2) == carry_out(
            after,
            names,
            tool_run,
            last,
            1,
        ));
        assert(carry_out(after, names, tool_run, last, 1) == carry_out(
            after,
            names,
            tool_run,
            last,
            0,
        ));
    }
}

/// One procedure, one commit, of what it wrote. A procedure that commits
/// what it writes, under a message that is not blank, on a project that
/// has its repository once the tasks are done, grows the history by
/// exactly one commit: the commit
/// that the report names. Its only parent is the commit that HEAD pointed
/// to before, HEAD moves to it, its message is the message of the
/// procedure, and its tree holds every file that was written, with the
/// content that the file has on disk. Where the history was one line and
/// identifiers tell commits apart, the commit is new and the history is
/// one line again, one commit longer.
pub proof fn lemma_procedure_commits_once(
    store: Store,
    names: Naming,
    tool_run: Option<bool>,
    procedure: Procedure,
)
    requires
        prepared(store, procedure.tasks@).exists,
        procedure.paths@.len() > 0,
        written(procedure@.tasks) == procedure@.paths,
        !blank(procedure@.commit_message),
    ensures
        ({
            let end = perform(store, names, tool_run, procedure);
            let report = full_report(store, names, tool_run, procedure);
            let h = report.commit_hash->0;
            let commit = end.store.commits[h];
            let tree = end.store.trees[commit.tree];
            &&& end.result == Some(Ok::<Report, ProcedureError>(report))
            &&& report.performed == procedure.tasks
            &&& report.commit_hash is Some
            &&& end.store.head == Some(h)
            &&& end.store.commits == store.commits.insert(h, commit)
            &&& commit.parent == store.head
            &&& commit.message == procedure.commit_message
            &&& forall|j: int|
                0 <= j < procedure.paths@.len() ==> tree.contains_key(
                    (#[trigger] procedure.paths@[j])@,
                ) && tree[procedure.paths@[j]@] == end.store.worktree[procedure.paths@[j]@]
            &&& is_one_line(store, names) && tells_commits_apart(names) ==> {
                &&& !store.commits.contains_key(h)
                &&& end.store.history == store.history.push(h)
                &&& is_one_line(end.store, names)
            }
        }),
{
    let ready = prepared(store, procedure.tasks@);
    lemma_tasks_keep_the_repository(store, procedure.tasks@);
    lemma_committed_paths_are_on_disk(store, procedure);
    lemma_procedure_commits(store, names, tool_run, procedure);
    lemma_round_trip(ready, names, procedure.paths, procedure.commit_message);
    lemma_commit_succeeds(ready, names, procedure.paths, procedure.commit_message);
    if is_one_line(store, names) && tells_commits_apart(names) {
        assert(is_one_line(ready, names));
        lemma_history_grows_by_one(ready, names, procedure.paths, procedure.commit_message);
    }
}

} // verus!
