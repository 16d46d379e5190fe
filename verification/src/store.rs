//! The object store that the commit transaction is written against, as a
//! mathematical model, and what a transaction does to such a store.
//!
//! The model holds what the transaction relies on: a working tree of files,
//! an index that maps staged paths to content, trees that are snapshots of
//! the index, and commits that point to a tree and to at most one parent.
//! The laws at the end of the file are proved of every store that answers
//! as the model does.

use vstd::prelude::*;
use crate::git::{
    ask,
    failed,
    first_step,
    next_step,
    resolved,
    stage_from,
    CommitError,
    CommitStep,
    CommitTransaction,
    Identity,
    Phase,
    StoreReply,
    StoreRequest,
};
use crate::text::blank;

verus! {

/// A set of files: content by relative path.
pub type Files = Map<Seq<char>, Seq<u8>>;

/// A commit as the store keeps it.
pub struct CommitRecord {
    /// Identifier of the tree that the commit snapshots.
    pub tree: String,
    /// The only parent, or none for the first commit of a history.
    pub parent: Option<String>,
    /// Author and committer.
    pub identity: Identity,
    pub message: String,
}

/// How a store names what it writes and words what goes wrong. Identifiers
/// are functions of what they name: equal trees have equal identifiers.
pub struct Naming {
    pub tree_id: spec_fn(Files) -> String,
    pub commit_id: spec_fn(CommitRecord) -> String,
    pub cause: String,
}

/// The state of a repository and of the project directory around it.
pub struct Store {
    /// Whether a repository exists at the project root.
    pub exists: bool,
    /// The files on disk.
    pub worktree: Files,
    /// The staged content: what the next tree will hold.
    pub index: Files,
    /// The trees written so far, by identifier.
    pub trees: Map<String, Files>,
    /// The commits written so far, by identifier.
    pub commits: Map<String, CommitRecord>,
    /// The identifiers of the commits in the order in which they were
    /// written.
    pub history: Seq<String>,
    /// The latest commit, absent before the first one.
    pub head: Option<String>,
    /// The identity configured for the repository, if any.
    pub configured: Option<Identity>,
}

/// A store after a request, and its reply.
pub struct Answer {
    pub store: Store,
    pub reply: StoreReply,
}

/// How a store answers a request, and what the request does to it.
///
/// Staging a path records the content that the file has on disk, in place
/// of any content staged for that path before, and fails when there is no
/// such file. Writing the tree snapshots the whole index. Committing
/// appends the commit and moves HEAD to it.
pub open spec fn answer(store: Store, names: Naming, request: StoreRequest) -> Answer {
    match request {
        StoreRequest::Open => if store.exists {
            Answer { store, reply: StoreReply::Done }
        } else {
            Answer { store, reply: StoreReply::Failed { cause: names.cause } }
        },
        StoreRequest::Stage { path } => if store.worktree.contains_key(path@) {
            Answer {
                store: Store {
                    index: store.index.insert(path@, store.worktree[path@]),
                    ..store
                },
                reply: StoreReply::Done,
            }
        } else {
            Answer { store, reply: StoreReply::Failed { cause: names.cause } }
        },
        StoreRequest::Flush => Answer { store, reply: StoreReply::Done },
        StoreRequest::WriteTree => {
            let id = (names.tree_id)(store.index);
            Answer {
                store: Store { trees: store.trees.insert(id, store.index), ..store },
                reply: StoreReply::Tree { id },
            }
        },
        StoreRequest::ReadHead => Answer { store, reply: StoreReply::Head { commit: store.head } },
        StoreRequest::ReadIdentity => Answer {
            store,
            reply: StoreReply::Identity { configured: store.configured },
        },
        StoreRequest::Commit { tree, parent, identity, message } => {
            let record = CommitRecord { tree, parent, identity, message };
            let id = (names.commit_id)(record);
            Answer {
                store: Store {
                    commits: store.commits.insert(id, record),
                    history: store.history.push(id),
                    head: Some(id),
                    ..store
                },
                reply: StoreReply::Committed { id },
            }
        },
    }
}

/// A store after a transaction, and how the transaction ended; `None` when
/// it was cut short.
pub struct Outcome {
    pub store: Store,
    pub result: Option<Result<String, CommitError>>,
}

/// Runs a transaction from `step` against `store` for at most `limit`
/// requests.
pub open spec fn run(store: Store, names: Naming, step: CommitStep, limit: nat) -> Outcome
    decreases limit,
{
    match step {
        CommitStep::Finished { outcome } => Outcome { store, result: Some(outcome) },
        CommitStep::Ask { transaction, request } => if limit == 0 {
            Outcome { store, result: None }
        } else {
            let a = answer(store, names, request);
            run(a.store, names, next_step(transaction, a.reply), (limit - 1) as nat)
        },
    }
}

/// Commits `files` under `message` to `store`: the whole transaction, which
/// makes one request to open, one for each path, and five to persist the
/// index, write the tree, read HEAD, read the identity and commit.
pub open spec fn commit_paths(store: Store, names: Naming, files: Vec<String>, message: String) -> Outcome {
    run(store, names, first_step(files, message), files@.len() + 6)
}

/// `files` names the path `path`.
pub open spec fn names_path(files: Seq<String>, path: Seq<char>) -> bool {
    exists|i: int| 0 <= i < files.len() && (#[trigger] files[i])@ == path
}

/// The index once `files` are staged from `worktree` onto `index`: the
/// content on disk for every path of `files`, the content staged before for
/// every other path.
pub open spec fn snapshot(index: Files, worktree: Files, files: Seq<String>) -> Files {
    Map::new(
        |path: Seq<char>| index.contains_key(path) || names_path(files, path),
        |path: Seq<char>|
            if names_path(files, path) {
                worktree[path]
            } else {
                index[path]
            },
    )
}

/// Every path of `files` is a file of `worktree`.
pub open spec fn all_on_disk(worktree: Files, files: Seq<String>) -> bool {
    forall|i: int| 0 <= i < files.len() ==> worktree.contains_key((#[trigger] files[i])@)
}

/// The commit that a transaction over `files` appends to `store`.
pub open spec fn new_commit(store: Store, names: Naming, files: Vec<String>, message: String) -> CommitRecord {
    CommitRecord {
        tree: (names.tree_id)(snapshot(store.index, store.worktree, files@)),
        parent: store.head,
        identity: resolved(store.configured),
        message,
    }
}

/// `store` after a transaction over `files` has committed.
pub open spec fn committed(store: Store, names: Naming, files: Vec<String>, message: String) -> Store {
    let tree = snapshot(store.index, store.worktree, files@);
    let record = new_commit(store, names, files, message);
    let id = (names.commit_id)(record);
    Store {
        index: tree,
        trees: store.trees.insert(record.tree, tree),
        commits: store.commits.insert(id, record),
        history: store.history.push(id),
        head: Some(id),
        ..store
    }
}

/// Staging one path and then the rest is staging all of them.
proof fn lemma_snapshot_step(index: Files, worktree: Files, files: Seq<String>, k: int)
    requires
        0 <= k < files.len(),
    ensures
        snapshot(
            index.insert(files[k]@, worktree[files[k]@]),
            worktree,
            files.subrange(k + 1, files.len() as int),
        ) == snapshot(index, worktree, files.subrange(k, files.len() as int)),
{
    let rest = files.subrange(k + 1, files.len() as int);
    let all = files.subrange(k, files.len() as int);
    let a = snapshot(index.insert(files[k]@, worktree[files[k]@]), worktree, rest);
    let b = snapshot(index, worktree, all);
    assert(all[0] == files[k]);
    assert forall|path: Seq<char>| names_path(rest, path) implies names_path(all, path) by {
        let i = choose|i: int| 0 <= i < rest.len() && (#[trigger] rest[i])@ == path;
        assert(all[i + 1] == rest[i]);
    }
    assert forall|path: Seq<char>| names_path(all, path) implies names_path(rest, path) || path
        == files[k]@ by {
        let i = choose|i: int| 0 <= i < all.len() && (#[trigger] all[i])@ == path;
        if i > 0 {
            assert(rest[i - 1] == all[i]);
        }
    }
    assert(a =~= b);
}

/// From the point where the paths before `k` are staged, a transaction on
/// an open store whose files are all on disk stages the rest and goes on
/// to persist the index.
proof fn lemma_staging(store: Store, names: Naming, tx: CommitTransaction, k: int, limit: nat)
    requires
        0 <= k <= tx.files@.len(),
        tx.files@.len() <= usize::MAX,
        all_on_disk(store.worktree, tx.files@),
        limit >= tx.files@.len() - k,
    ensures
        run(store, names, stage_from(tx, k as usize), limit) == run(
            Store {
                index: snapshot(
                    store.index,
                    store.worktree,
                    tx.files@.subrange(k, tx.files@.len() as int),
                ),
                ..store
            },
            names,
            ask(tx, Phase::Flushing, StoreRequest::Flush),
            (limit - (tx.files@.len() - k)) as nat,
        ),
    decreases tx.files@.len() - k,
{
    let n = tx.files@.len() as int;
    if k == n {
        assert(snapshot(store.index, store.worktree, tx.files@.subrange(k, n)) =~= store.index);
    } else {
        let path = tx.files@[k];
        let staging = CommitTransaction {
            files: tx.files,
            message: tx.message,
            phase: Phase::Staging { path, next: (k + 1) as usize },
        };
        let a = answer(store, names, StoreRequest::Stage { path });
        assert(next_step(staging, a.reply) == stage_from(tx, (k + 1) as usize));
        lemma_staging(a.store, names, tx, k + 1, (limit - 1) as nat);
        lemma_snapshot_step(store.index, store.worktree, tx.files@, k);
    }
}

/// A transaction on an open store, over files that are all on disk and
/// under a message that is not blank, commits: it returns the identifier
/// of the new commit and leaves the store as `committed` says.
pub proof fn lemma_commit_succeeds(store: Store, names: Naming, files: Vec<String>, message: String)
    requires
        store.exists,
        files@.len() > 0,
        !blank(message@),
        all_on_disk(store.worktree, files@),
    ensures
        commit_paths(store, names, files, message) == (Outcome {
            store: committed(store, names, files, message),
            result: Some(
                Ok((names.commit_id)(new_commit(store, names, files, message))),
            ),
        }),
{
    let n = files@.len();
    assert(n == files.len());
    let tx = CommitTransaction { files, message, phase: Phase::Opening };
    let tree = snapshot(store.index, store.worktree, files@);
    assert(files@.subrange(0, n as int) =~= files@);
    assert(next_step(tx, StoreReply::Done) == stage_from(tx, 0));
    lemma_staging(store, names, tx, 0, (n + 5) as nat);
    let s1 = Store { index: tree, ..store };
    let flushing = CommitTransaction { files, message, phase: Phase::Flushing };
    assert(run(store, names, first_step(files, message), n + 6) == run(
        s1,
        names,
        ask(tx, Phase::Flushing, StoreRequest::Flush),
        5,
    ));
    let writing = CommitTransaction { files, message, phase: Phase::WritingTree };
    assert(run(s1, names, ask(tx, Phase::Flushing, StoreRequest::Flush), 5) == run(
        s1,
        names,
        ask(tx, Phase::WritingTree, StoreRequest::WriteTree),
        4,
    ));
    let tree_id = (names.tree_id)(tree);
    let s2 = Store { trees: s1.trees.insert(tree_id, tree), ..s1 };
    assert(run(s1, names, ask(tx, Phase::WritingTree, StoreRequest::WriteTree), 4) == run(
        s2,
        names,
        ask(tx, Phase::ReadingHead { tree: tree_id }, StoreRequest::ReadHead),
        3,
    ));
    assert(run(
        s2,
        names,
        ask(tx, Phase::ReadingHead { tree: tree_id }, StoreRequest::ReadHead),
        3,
    ) == run(
        s2,
        names,
        ask(
            tx,
            Phase::ResolvingIdentity { tree: tree_id, parent: store.head },
            StoreRequest::ReadIdentity,
        ),
        2,
    ));
    let record = new_commit(store, names, files, message);
    let request = StoreRequest::Commit {
        tree: tree_id,
        parent: store.head,
        identity: resolved(store.configured),
        message,
    };
    assert(run(
        s2,
        names,
        ask(
            tx,
            Phase::ResolvingIdentity { tree: tree_id, parent: store.head },
            StoreRequest::ReadIdentity,
        ),
        2,
    ) == run(s2, names, ask(tx, Phase::Committing, request), 1));
    let id = (names.commit_id)(record);
    let s3 = Store {
        commits: s2.commits.insert(id, record),
        history: s2.history.push(id),
        head: Some(id),
        ..s2
    };
    assert(run(s2, names, ask(tx, Phase::Committing, request), 1) == run(
        s3,
        names,
        CommitStep::Finished { outcome: Ok(id) },
        0,
    ));
    assert(s3 == committed(store, names, files, message));
}

/// The path at `k` is the first one of `files` that is not on disk.
pub open spec fn first_missing(worktree: Files, files: Seq<String>, k: int) -> bool {
    &&& 0 <= k < files.len()
    &&& !worktree.contains_key(files[k]@)
    &&& forall|i: int| 0 <= i < k ==> worktree.contains_key((#[trigger] files[i])@)
}

/// From the point where the paths before `k` are staged, a transaction
/// whose first missing file is at `m` stages the paths before `m` and ends
/// with the staging error for the path at `m`.
proof fn lemma_staging_fails(
    store: Store,
    names: Naming,
    tx: CommitTransaction,
    k: int,
    m: int,
    limit: nat,
)
    requires
        0 <= k <= m,
        tx.files@.len() <= usize::MAX,
        first_missing(store.worktree, tx.files@, m),
        limit > m - k,
    ensures
        run(store, names, stage_from(tx, k as usize), limit) == (Outcome {
            store: Store {
                index: snapshot(store.index, store.worktree, tx.files@.subrange(k, m)),
                ..store
            },
            result: Some(
                Err(CommitError::StageFailed { path: tx.files@[m], cause: names.cause }),
            ),
        }),
    decreases m - k,
{
    let path = tx.files@[k];
    let staging = CommitTransaction {
        files: tx.files,
        message: tx.message,
        phase: Phase::Staging { path, next: (k + 1) as usize },
    };
    let a = answer(store, names, StoreRequest::Stage { path });
    if k == m {
        assert(snapshot(store.index, store.worktree, tx.files@.subrange(k, m)) =~= store.index);
        assert(next_step(staging, a.reply) == failed(
            CommitError::StageFailed { path, cause: names.cause },
        ));
        assert(run(a.store, names, next_step(staging, a.reply), (limit - 1) as nat) == (Outcome {
            store,
            result: Some(Err(CommitError::StageFailed { path, cause: names.cause })),
        }));
    } else {
        assert(next_step(staging, a.reply) == stage_from(tx, (k + 1) as usize));
        lemma_staging_fails(a.store, names, tx, k + 1, m, (limit - 1) as nat);
        let upto = tx.files@.subrange(0, m);
        assert(upto.subrange(k, m) =~= tx.files@.subrange(k, m));
        assert(upto.subrange(k + 1, m) =~= tx.files@.subrange(k + 1, m));
        assert(upto[k] == tx.files@[k]);
        lemma_snapshot_step(store.index, store.worktree, upto, k);
    }
}

/// A transaction with no path or with a blank message is refused with
/// `InvalidArgument`, and the store is as it was.
pub proof fn lemma_refusal_leaves_store(
    store: Store,
    names: Naming,
    files: Vec<String>,
    message: String,
)
    requires
        files@.len() == 0 || blank(message@),
    ensures
        commit_paths(store, names, files, message).store == store,
        commit_paths(store, names, files, message).result matches Some(
            Err(CommitError::InvalidArgument { fault }),
        ),
{
}

/// A transaction on a directory without repository fails with `NotFound`,
/// and the directory is as it was.
pub proof fn lemma_missing_repository(
    store: Store,
    names: Naming,
    files: Vec<String>,
    message: String,
)
    requires
        !store.exists,
        files@.len() > 0,
        !blank(message@),
    ensures
        commit_paths(store, names, files, message) == (Outcome {
            store,
            result: Some(Err(CommitError::NotFound { cause: names.cause })),
        }),
{
    let tx = CommitTransaction { files, message, phase: Phase::Opening };
    assert(next_step(tx, StoreReply::Failed { cause: names.cause }) == failed(
        CommitError::NotFound { cause: names.cause },
    ));
    assert(run(
        store,
        names,
        failed(CommitError::NotFound { cause: names.cause }),
        (files@.len() + 5) as nat,
    ) == (Outcome { store, result: Some(Err(CommitError::NotFound { cause: names.cause })) }));
}

/// The first path that cannot be staged ends the transaction with
/// `StageFailed` for that path: no tree and no commit is written, and HEAD
/// stays where it was. What was staged before the failure stays staged:
/// nothing is rolled back.
pub proof fn lemma_stage_failure_aborts(
    store: Store,
    names: Naming,
    files: Vec<String>,
    message: String,
    m: int,
)
    requires
        store.exists,
        !blank(message@),
        first_missing(store.worktree, files@, m),
    ensures
        commit_paths(store, names, files, message).result == Some(
            Err::<String, CommitError>(
                CommitError::StageFailed { path: files@[m], cause: names.cause },
            ),
        ),
        commit_paths(store, names, files, message).store.trees == store.trees,
        commit_paths(store, names, files, message).store.commits == store.commits,
        commit_paths(store, names, files, message).store.head == store.head,
        commit_paths(store, names, files, message).store.worktree == store.worktree,
        commit_paths(store, names, files, message).store.index == snapshot(
            store.index,
            store.worktree,
            files@.subrange(0, m),
        ),
{
    let n = files@.len();
    assert(n == files.len());
    let tx = CommitTransaction { files, message, phase: Phase::Opening };
    assert(next_step(tx, StoreReply::Done) == stage_from(tx, 0));
    lemma_staging_fails(store, names, tx, 0, m, (n + 5) as nat);
}

/// Round trip: after a transaction has committed, the tree of the new
/// commit holds, for every path that was given, the content that the file
/// has on disk; for every other path it holds what was staged before, so
/// that the tree is a snapshot of the whole repository. Staging the same
/// files again changes nothing.
pub proof fn lemma_round_trip(store: Store, names: Naming, files: Vec<String>, message: String)
    requires
        store.exists,
        files@.len() > 0,
        !blank(message@),
        all_on_disk(store.worktree, files@),
    ensures
        ({
            let after = commit_paths(store, names, files, message).store;
            let record = new_commit(store, names, files, message);
            let tree = after.trees[record.tree];
            &&& after.head == Some((names.commit_id)(record))
            &&& after.commits[after.head->0] == record
            &&& after.worktree == store.worktree
            &&& forall|i: int|
                0 <= i < files@.len() ==> tree.contains_key((#[trigger] files@[i])@) && tree[files@[i]@]
                    == store.worktree[files@[i]@]
            &&& forall|path: Seq<char>|
                store.index.contains_key(path) && !names_path(files@, path) ==> tree.contains_key(
                    path,
                ) && tree[path] == store.index[path]
            &&& snapshot(after.index, after.worktree, files@) == after.index
        }),
{
    lemma_commit_succeeds(store, names, files, message);
    let tree = snapshot(store.index, store.worktree, files@);
    assert(snapshot(tree, store.worktree, files@) =~= tree);
}

/// Content determinism: two transactions on the same store over the same
/// set of paths write the same tree, in whatever order the paths are given
/// and however often one of them is repeated.
pub proof fn lemma_tree_ignores_order(
    store: Store,
    names: Naming,
    first: Vec<String>,
    second: Vec<String>,
    message: String,
    other_message: String,
)
    requires
        forall|path: Seq<char>| names_path(first@, path) <==> names_path(second@, path),
    ensures
        new_commit(store, names, first, message).tree == new_commit(
            store,
            names,
            second,
            other_message,
        ).tree,
        committed(store, names, first, message).index == committed(
            store,
            names,
            second,
            other_message,
        ).index,
{
    assert(snapshot(store.index, store.worktree, first@) =~= snapshot(
        store.index,
        store.worktree,
        second@,
    ));
}

/// Content determinism across stores: whenever two stores hold the same
/// index once the files are staged, the trees written for them have the
/// same identifier.
pub proof fn lemma_tree_is_function_of_content(
    store: Store,
    other: Store,
    names: Naming,
    files: Vec<String>,
    other_files: Vec<String>,
    message: String,
)
    requires
        snapshot(store.index, store.worktree, files@) == snapshot(
            other.index,
            other.worktree,
            other_files@,
        ),
    ensures
        new_commit(store, names, files, message).tree == new_commit(
            other,
            names,
            other_files,
            message,
        ).tree,
{
}

/// Linear history: a transaction that commits appends exactly one commit,
/// whose parent is the commit that HEAD pointed to before, or none when
/// there was no HEAD, and moves HEAD to it.
pub proof fn lemma_history_is_linear(
    store: Store,
    names: Naming,
    files: Vec<String>,
    message: String,
)
    requires
        store.exists,
        files@.len() > 0,
        !blank(message@),
        all_on_disk(store.worktree, files@),
    ensures
        ({
            let out = commit_paths(store, names, files, message);
            &&& out.result matches Some(Ok(id)) && out.store.head == Some(id)
                && out.store.commits == store.commits.insert(id, out.store.commits[id])
                && out.store.commits[id].parent == store.head
                && out.store.commits[id].message == message
        }),
        store.head is None ==> new_commit(store, names, files, message).parent is None,
{
    lemma_commit_succeeds(store, names, files, message);
}

/// The identifier that a store gives to a commit.
pub open spec fn id_of(names: Naming, record: CommitRecord) -> String {
    (names.commit_id)(record)
}

/// Identifiers of commits are content addresses: commits that differ have
/// identifiers that differ.
pub open spec fn tells_commits_apart(names: Naming) -> bool {
    forall|a: CommitRecord, b: CommitRecord|
        #[trigger] id_of(names, a) == #[trigger] id_of(names, b) ==> a == b
}

/// The history of a store is one line: every commit is there once, under
/// the identifier of its content, the first has no parent, every later one
/// has the one before it as its only parent, and HEAD is the last.
pub open spec fn is_one_line(store: Store, names: Naming) -> bool {
    &&& store.history.no_duplicates()
    &&& forall|id: String| #[trigger]
        store.commits.contains_key(id) <==> store.history.contains(id)
    &&& forall|i: int|
        0 <= i < store.history.len() ==> id_of(names, store.commits[#[trigger] store.history[i]])
            == store.history[i]
    &&& forall|i: int|
        0 <= i < store.history.len() ==> store.commits[#[trigger] store.history[i]].parent == (if i
            == 0 {
            None
        } else {
            Some(store.history[i - 1])
        })
    &&& store.head == (if store.history.len() == 0 {
        None
    } else {
        Some(store.history.last())
    })
}

/// The history grows by one. On a store whose history is one line and
/// whose identifiers tell commits apart, a transaction that commits writes
/// a commit that was not there: its identifier is new, no commit of the
/// history is touched, it is the first commit without parent or a later
/// one with the old HEAD as its only parent, and the history is one line
/// again, one commit longer, with HEAD at its end. No commit ever has two
/// parents.
pub proof fn lemma_history_grows_by_one(
    store: Store,
    names: Naming,
    files: Vec<String>,
    message: String,
)
    requires
        is_one_line(store, names),
        tells_commits_apart(names),
        store.exists,
        files@.len() > 0,
        !blank(message@),
        all_on_disk(store.worktree, files@),
    ensures
        ({
            let out = commit_paths(store, names, files, message);
            let h = id_of(names, new_commit(store, names, files, message));
            &&& out.result == Some(Ok::<String, CommitError>(h))
            &&& !store.commits.contains_key(h)
            &&& store.head != Some(h)
            &&& out.store.history == store.history.push(h)
            &&& forall|id: String| #[trigger]
                store.commits.contains_key(id) ==> out.store.commits[id] == store.commits[id]
            &&& out.store.commits[h].parent == store.head
            &&& out.store.head == Some(h)
            &&& is_one_line(out.store, names)
        }),
{
    lemma_commit_succeeds(store, names, files, message);
    let record = new_commit(store, names, files, message);
    let h = id_of(names, record);
    let n = store.history.len() as int;
    let after = commit_paths(store, names, files, message).store;
    if store.commits.contains_key(h) {
        assert(store.history.contains(h));
        let i = choose|i: int| 0 <= i < n && store.history[i] == h;
        let old = store.commits[store.history[i]];
        assert(id_of(names, old) == id_of(names, record));
        assert(old == record);
        if i > 0 {
            assert(store.history[i - 1] == store.history[n - 1]);
        }
        assert(false);
    }
    assert(!store.history.contains(h));
    if n > 0 {
        assert(store.history.contains(store.history[n - 1]));
    }
    let longer = store.history.push(h);
    assert(after.history == longer);
    assert(longer.no_duplicates());
    assert forall|id: String| #[trigger] after.commits.contains_key(id) <==> longer.contains(
        id,
    ) by {
        if longer.contains(id) {
            let i = choose|i: int| 0 <= i < longer.len() && longer[i] == id;
            if i < n {
                assert(store.history.contains(id));
            }
        }
        if after.commits.contains_key(id) && id != h {
            assert(store.history.contains(id));
            let i = choose|i: int| 0 <= i < n && store.history[i] == id;
            assert(longer[i] == id);
        }
        if id == h {
            assert(longer[n] == h);
        }
    }
    assert forall|i: int| 0 <= i < longer.len() implies id_of(
        names,
        after.commits[#[trigger] longer[i]],
    ) == longer[i] && after.commits[longer[i]].parent == (if i == 0 {
        None
    } else {
        Some(longer[i - 1])
    }) by {
        if i < n {
            assert(store.history.contains(store.history[i]));
            assert(longer[i] == store.history[i]);
            if i > 0 {
                assert(longer[i - 1] == store.history[i - 1]);
            }
        }
    }
}

} // verus!
