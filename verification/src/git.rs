//! The commit transaction: staging a set of written files, snapshotting the
//! index as a tree and appending one commit to the history.
//!
//! The transaction owns the decisions and none of the storage. It asks the
//! object store for one operation at a time and is told how that operation
//! went; the caller performs the operation against the repository.

use vstd::prelude::*;
use crate::text::{blank, concat2, is_blank};

verus! {

/// Who a commit is attributed to.
#[derive(Debug, Clone)]
pub enum Identity {
    /// The identity configured for the repository or its environment.
    Configured { name: String, email: String },
    /// The fixed identity used when none is configured.
    Fallback,
}

impl Identity {
    /// The author name recorded in a commit.
    pub open spec fn name_text(self) -> Seq<char> {
        match self {
            Identity::Configured { name, email } => name@,
            Identity::Fallback => "Unheard User"@,
        }
    }

    /// The author email recorded in a commit.
    pub open spec fn email_text(self) -> Seq<char> {
        match self {
            Identity::Configured { name, email } => email@,
            Identity::Fallback => "user@unheard.local"@,
        }
    }

    /// The author name recorded in a commit.
    pub fn name(&self) -> (s: String)
        ensures
            s@ == self.name_text(),
    {
        match self {
            Identity::Configured { name, email } => name.clone(),
            Identity::Fallback => "Unheard User".to_owned(),
        }
    }

    /// The author email recorded in a commit.
    pub fn email(&self) -> (s: String)
        ensures
            s@ == self.email_text(),
    {
        match self {
            Identity::Configured { name, email } => email.clone(),
            Identity::Fallback => "user@unheard.local".to_owned(),
        }
    }
}

/// The identity a commit is made under: the configured one when there is
/// one, the fallback otherwise.
pub open spec fn resolved(configured: Option<Identity>) -> Identity {
    match configured {
        Some(identity) => identity,
        None => Identity::Fallback,
    }
}

/// Chooses the identity for a commit. There is no failing case: a commit can
/// always be attributed.
pub fn resolve_identity(configured: Option<Identity>) -> (identity: Identity)
    ensures
        identity == resolved(configured),
{
    match configured {
        Some(identity) => identity,
        None => Identity::Fallback,
    }
}

/// Which required argument of a transaction is missing.
#[derive(Debug, Clone, Copy, PartialEq, Eq, Structural)]
pub enum ArgumentFault {
    /// No path was given.
    NoFiles,
    /// The message is empty or only whitespace.
    EmptyMessage,
}

/// Why a commit transaction produced no commit.
#[derive(Debug, Clone)]
pub enum CommitError {
    /// An argument was refused before the store was touched.
    InvalidArgument { fault: ArgumentFault },
    /// There is no repository at the project root.
    NotFound { cause: String },
    /// A path could not be staged.
    StageFailed { path: String, cause: String },
    /// The index could not be persisted.
    IoError { cause: String },
    /// The tree could not be written.
    TreeFailed { cause: String },
    /// The commit could not be written.
    CommitFailed { cause: String },
    /// The store answered a request with a reply of another kind.
    UnexpectedReply,
}

impl CommitError {
    /// The text shown for this error.
    pub open spec fn text(self) -> Seq<char> {
        match self {
            CommitError::InvalidArgument { fault: ArgumentFault::NoFiles } =>
                "No files provided to commit"@,
            CommitError::InvalidArgument { fault: ArgumentFault::EmptyMessage } =>
                "Commit message cannot be empty"@,
            CommitError::NotFound { cause } => "Failed to open Git repository: "@ + cause@,
            CommitError::StageFailed { path, cause } => "Failed to add "@ + path@ + " to index: "@
                + cause@,
            CommitError::IoError { cause } => "Failed to write index: "@ + cause@,
            CommitError::TreeFailed { cause } => "Failed to write tree: "@ + cause@,
            CommitError::CommitFailed { cause } => "Failed to create commit: "@ + cause@,
            CommitError::UnexpectedReply => "Unexpected reply from the object store"@,
        }
    }

    /// Renders the error for display.
    pub fn to_string(&self) -> (s: String)
        ensures
            s@ == self.text(),
    {
        match self {
            CommitError::InvalidArgument { fault } => match fault {
                ArgumentFault::NoFiles => "No files provided to commit".to_owned(),
                ArgumentFault::EmptyMessage => "Commit message cannot be empty".to_owned(),
            },
            CommitError::NotFound { cause } => concat2(
                "Failed to open Git repository: ",
                cause.as_str(),
            ),
            CommitError::StageFailed { path, cause } => {
                let mut s = concat2("Failed to add ", path.as_str());
                s.append(" to index: ");
                s.append(cause.as_str());
                s
            },
            CommitError::IoError { cause } => concat2("Failed to write index: ", cause.as_str()),
            CommitError::TreeFailed { cause } => concat2("Failed to write tree: ", cause.as_str()),
            CommitError::CommitFailed { cause } => concat2(
                "Failed to create commit: ",
                cause.as_str(),
            ),
            CommitError::UnexpectedReply => "Unexpected reply from the object store".to_owned(),
        }
    }
}

/// One operation asked of the object store.
#[derive(Debug, Clone)]
pub enum StoreRequest {
    /// Open the repository at the project root.
    Open,
    /// Record the content of the file at `path` in the index.
    Stage { path: String },
    /// Persist the index.
    Flush,
    /// Write the whole index as a tree.
    WriteTree,
    /// Read the commit that HEAD points to.
    ReadHead,
    /// Read the identity configured for the repository.
    ReadIdentity,
    /// Append a commit and move HEAD to it. `identity` is author and
    /// committer; `parent` is the only parent, or the commit has none.
    Commit { tree: String, parent: Option<String>, identity: Identity, message: String },
}

/// How the object store answered a request.
#[derive(Debug, Clone)]
pub enum StoreReply {
    /// The repository was opened, the path staged or the index persisted.
    Done,
    /// The identifier of the tree that was written.
    Tree { id: String },
    /// The commit HEAD points to, if HEAD exists.
    Head { commit: Option<String> },
    /// The configured identity, if there is one.
    Identity { configured: Option<Identity> },
    /// The identifier of the commit that was appended.
    Committed { id: String },
    /// The operation failed.
    Failed { cause: String },
}

/// What a transaction is waiting for.
#[derive(Debug, Clone)]
pub enum Phase {
    /// The repository is being opened.
    Opening,
    /// `path` is being staged; `next` is the position of the path after it.
    Staging { path: String, next: usize },
    /// The index is being persisted.
    Flushing,
    /// The tree is being written.
    WritingTree,
    /// HEAD is being read; `tree` is the tree to commit.
    ReadingHead { tree: String },
    /// The identity is being read; `parent` is what HEAD pointed to.
    ResolvingIdentity { tree: String, parent: Option<String> },
    /// The commit is being appended.
    Committing,
}

/// A commit transaction in flight.
#[derive(Debug, Clone)]
pub struct CommitTransaction {
    /// Paths to stage, relative to the project root, in staging order.
    pub files: Vec<String>,
    /// The commit message.
    pub message: String,
    /// The operation whose reply is awaited.
    pub phase: Phase,
}

/// Where a transaction stands after a move.
#[derive(Debug)]
pub enum CommitStep {
    /// The store is asked for `request`; the reply goes to `advance`.
    Ask { transaction: CommitTransaction, request: StoreRequest },
    /// The transaction is over: the new commit's identifier, or the error.
    Finished { outcome: Result<String, CommitError> },
}

/// The step that ends a transaction with `error`.
pub open spec fn failed(error: CommitError) -> CommitStep {
    CommitStep::Finished { outcome: Err(error) }
}

/// The step that puts a transaction in `phase` and asks for `request`.
pub open spec fn ask(tx: CommitTransaction, phase: Phase, request: StoreRequest) -> CommitStep {
    CommitStep::Ask {
        transaction: CommitTransaction { files: tx.files, message: tx.message, phase },
        request,
    }
}

/// The step taken once the path at `position - 1` is staged, or once the
/// repository is open when `position` is 0: stage the path at `position`,
/// or persist the index when every path is staged.
pub open spec fn stage_from(tx: CommitTransaction, position: usize) -> CommitStep {
    if position < tx.files@.len() {
        let path = tx.files@[position as int];
        ask(
            tx,
            Phase::Staging { path, next: (position + 1) as usize },
            StoreRequest::Stage { path },
        )
    } else {
        ask(tx, Phase::Flushing, StoreRequest::Flush)
    }
}

/// The first step of a transaction over `files` with `message`: a refusal
/// when there is no path or the message is blank, the request to open the
/// repository otherwise.
pub open spec fn first_step(files: Vec<String>, message: String) -> CommitStep {
    if files@.len() == 0 {
        failed(CommitError::InvalidArgument { fault: ArgumentFault::NoFiles })
    } else if blank(message@) {
        failed(CommitError::InvalidArgument { fault: ArgumentFault::EmptyMessage })
    } else {
        CommitStep::Ask {
            transaction: CommitTransaction { files, message, phase: Phase::Opening },
            request: StoreRequest::Open,
        }
    }
}

/// The step that follows `reply` in transaction `tx`.
///
/// A failure to open, stage, persist, write the tree or commit ends the
/// transaction with the error of that phase. A failure to read HEAD counts
/// as an absent HEAD, and a failure to read the identity as none configured.
pub open spec fn next_step(tx: CommitTransaction, reply: StoreReply) -> CommitStep {
    match tx.phase {
        Phase::Opening => match reply {
            StoreReply::Done => stage_from(tx, 0),
            StoreReply::Failed { cause } => failed(CommitError::NotFound { cause }),
            _ => failed(CommitError::UnexpectedReply),
        },
        Phase::Staging { path, next } => match reply {
            StoreReply::Done => stage_from(tx, next),
            StoreReply::Failed { cause } => failed(CommitError::StageFailed { path, cause }),
            _ => failed(CommitError::UnexpectedReply),
        },
        Phase::Flushing => match reply {
            StoreReply::Done => ask(tx, Phase::WritingTree, StoreRequest::WriteTree),
            StoreReply::Failed { cause } => failed(CommitError::IoError { cause }),
            _ => failed(CommitError::UnexpectedReply),
        },
        Phase::WritingTree => match reply {
            StoreReply::Tree { id } => ask(
                tx,
                Phase::ReadingHead { tree: id },
                StoreRequest::ReadHead,
            ),
            StoreReply::Failed { cause } => failed(CommitError::TreeFailed { cause }),
            _ => failed(CommitError::UnexpectedReply),
        },
        Phase::ReadingHead { tree } => match reply {
            StoreReply::Head { commit } => ask(
                tx,
                Phase::ResolvingIdentity { tree, parent: commit },
                StoreRequest::ReadIdentity,
            ),
            StoreReply::Failed { cause } => ask(
                tx,
                Phase::ResolvingIdentity { tree, parent: None },
                StoreRequest::ReadIdentity,
            ),
            _ => failed(CommitError::UnexpectedReply),
        },
        Phase::ResolvingIdentity { tree, parent } => match reply {
            StoreReply::Identity { configured } => ask(
                tx,
                Phase::Committing,
                StoreRequest::Commit {
                    tree,
                    parent,
                    identity: resolved(configured),
                    message: tx.message,
                },
            ),
            StoreReply::Failed { cause } => ask(
                tx,
                Phase::Committing,
                StoreRequest::Commit {
                    tree,
                    parent,
                    identity: Identity::Fallback,
                    message: tx.message,
                },
            ),
            _ => failed(CommitError::UnexpectedReply),
        },
        Phase::Committing => match reply {
            StoreReply::Committed { id } => CommitStep::Finished { outcome: Ok(id) },
            StoreReply::Failed { cause } => failed(CommitError::CommitFailed { cause }),
            _ => failed(CommitError::UnexpectedReply),
        },
    }
}

/// Stages the path at `position`, or persists the index when none is left.
fn stage_or_flush(files: Vec<String>, message: String, position: usize) -> (step: CommitStep)
    ensures
        step == stage_from(
            CommitTransaction { files, message, phase: Phase::Opening },
            position,
        ),
{
    if position < files.len() {
        let path = files[position].clone();
        let request = StoreRequest::Stage { path: path.clone() };
        CommitStep::Ask {
            transaction: CommitTransaction {
                files,
                message,
                phase: Phase::Staging { path, next: position + 1 },
            },
            request,
        }
    } else {
        CommitStep::Ask {
            transaction: CommitTransaction { files, message, phase: Phase::Flushing },
            request: StoreRequest::Flush,
        }
    }
}

/// Starts the transaction that commits `files`, paths relative to the
/// project root of files that are already on disk, under `message`.
///
/// Nothing is asked of the store when an argument is refused.
pub fn git_auto_commit(files: Vec<String>, message: String) -> (step: CommitStep)
    ensures
        step == first_step(files, message),
{
    if files.len() == 0 {
        return CommitStep::Finished {
            outcome: Err(CommitError::InvalidArgument { fault: ArgumentFault::NoFiles }),
        };
    }
    if is_blank(message.as_str()) {
        return CommitStep::Finished {
            outcome: Err(CommitError::InvalidArgument { fault: ArgumentFault::EmptyMessage }),
        };
    }
    CommitStep::Ask {
        transaction: CommitTransaction { files, message, phase: Phase::Opening },
        request: StoreRequest::Open,
    }
}

impl CommitTransaction {
    /// Takes the store's reply to the pending request and decides what
    /// follows.
    pub fn advance(self, reply: StoreReply) -> (step: CommitStep)
        ensures
            step == next_step(self, reply),
    {
        let CommitTransaction { files, message, phase } = self;
        match phase {
            Phase::Opening => match reply {
                StoreReply::Done => stage_or_flush(files, message, 0),
                StoreReply::Failed { cause } => CommitStep::Finished {
                    outcome: Err(CommitError::NotFound { cause }),
                },
                _ => CommitStep::Finished { outcome: Err(CommitError::UnexpectedReply) },
            },
            Phase::Staging { path, next } => match reply {
                StoreReply::Done => stage_or_flush(files, message, next),
                StoreReply::Failed { cause } => CommitStep::Finished {
                    outcome: Err(CommitError::StageFailed { path, cause }),
                },
                _ => CommitStep::Finished { outcome: Err(CommitError::UnexpectedReply) },
            },
            Phase::Flushing => match reply {
                StoreReply::Done => CommitStep::Ask {
                    transaction: CommitTransaction { files, message, phase: Phase::WritingTree },
                    request: StoreRequest::WriteTree,
                },
                StoreReply::Failed { cause } => CommitStep::Finished {
                    outcome: Err(CommitError::IoError { cause }),
                },
                _ => CommitStep::Finished { outcome: Err(CommitError::UnexpectedReply) },
            },
            Phase::WritingTree => match reply {
                StoreReply::Tree { id } => CommitStep::Ask {
                    transaction: CommitTransaction {
                        files,
                        message,
                        phase: Phase::ReadingHead { tree: id },
                    },
                    request: StoreRequest::ReadHead,
                },
                StoreReply::Failed { cause } => CommitStep::Finished {
                    outcome: Err(CommitError::TreeFailed { cause }),
                },
                _ => CommitStep::Finished { outcome: Err(CommitError::UnexpectedReply) },
            },
            Phase::ReadingHead { tree } => match reply {
                StoreReply::Head { commit } => CommitStep::Ask {
                    transaction: CommitTransaction {
                        files,
                        message,
                        phase: Phase::ResolvingIdentity { tree, parent: commit },
                    },
                    request: StoreRequest::ReadIdentity,
                },
                StoreReply::Failed { cause } => CommitStep::Ask {
                    transaction: CommitTransaction {
                        files,
                        message,
                        phase: Phase::ResolvingIdentity { tree, parent: None },
                    },
                    request: StoreRequest::ReadIdentity,
                },
                _ => CommitStep::Finished { outcome: Err(CommitError::UnexpectedReply) },
            },
            Phase::ResolvingIdentity { tree, parent } => match reply {
                StoreReply::Identity { configured } => {
                    let request = StoreRequest::Commit {
                        tree,
                        parent,
                        identity: resolve_identity(configured),
                        message: message.clone(),
                    };
                    CommitStep::Ask {
                        transaction: CommitTransaction { files, message, phase: Phase::Committing },
                        request,
                    }
                },
                StoreReply::Failed { cause } => {
                    let request = StoreRequest::Commit {
                        tree,
                        parent,
                        identity: resolve_identity(None),
                        message: message.clone(),
                    };
                    CommitStep::Ask {
                        transaction: CommitTransaction { files, message, phase: Phase::Committing },
                        request,
                    }
                },
                _ => CommitStep::Finished { outcome: Err(CommitError::UnexpectedReply) },
            },
            Phase::Committing => match reply {
                StoreReply::Committed { id } => CommitStep::Finished { outcome: Ok(id) },
                StoreReply::Failed { cause } => CommitStep::Finished {
                    outcome: Err(CommitError::CommitFailed { cause }),
                },
                _ => CommitStep::Finished { outcome: Err(CommitError::UnexpectedReply) },
            },
        }
    }
}

/// Where a transaction stands once the store has given `replies`, one for
/// each request, in order; replies past the end of the transaction are not
/// looked at.
pub open spec fn after(step: CommitStep, replies: Seq<StoreReply>) -> CommitStep
    decreases replies.len(),
{
    if replies.len() == 0 {
        step
    } else {
        match step {
            CommitStep::Finished { outcome } => step,
            CommitStep::Ask { transaction, request } => after(
                next_step(transaction, replies[0]),
                replies.drop_first(),
            ),
        }
    }
}

/// The number of times that a transaction asks for a commit while it is
/// given `replies`, the pending request of `step` included.
pub open spec fn commits_asked(step: CommitStep, replies: Seq<StoreReply>) -> nat
    decreases replies.len(),
{
    match step {
        CommitStep::Finished { outcome } => 0,
        CommitStep::Ask { transaction, request } => (if request is Commit {
            1nat
        } else {
            0nat
        }) + (if replies.len() == 0 {
            0nat
        } else {
            commits_asked(next_step(transaction, replies[0]), replies.drop_first())
        }),
    }
}

/// The most replies that a transaction can still take.
pub open spec fn replies_left(step: CommitStep) -> nat {
    match step {
        CommitStep::Finished { outcome } => 0,
        CommitStep::Ask { transaction, request } => match transaction.phase {
            Phase::Opening => transaction.files@.len() + 6,
            Phase::Staging { path, next } => if next <= transaction.files@.len() {
                (transaction.files@.len() - next + 6) as nat
            } else {
                6
            },
            Phase::Flushing => 5,
            Phase::WritingTree => 4,
            Phase::ReadingHead { tree } => 3,
            Phase::ResolvingIdentity { tree, parent } => 2,
            Phase::Committing => 1,
        },
    }
}

/// A commit is asked for in the last phase and in no other.
pub open spec fn commit_is_last(step: CommitStep) -> bool {
    match step {
        CommitStep::Finished { outcome } => true,
        CommitStep::Ask { transaction, request } => request is Commit
            <==> transaction.phase is Committing,
    }
}

/// Every reply brings a transaction closer to its end.
proof fn lemma_reply_advances(transaction: CommitTransaction, request: StoreRequest, reply: StoreReply)
    ensures
        replies_left(next_step(transaction, reply)) < replies_left(
            CommitStep::Ask { transaction, request },
        ),
        commit_is_last(next_step(transaction, reply)),
        transaction.phase is Committing ==> next_step(transaction, reply) is Finished,
{
    assert(transaction.files.len() == transaction.files@.len());
}

/// A transaction does not go on for ever: whatever the store replies, it is
/// over once it has had as many replies as it could still take.
proof fn lemma_ends(step: CommitStep, replies: Seq<StoreReply>)
    requires
        replies.len() >= replies_left(step),
    ensures
        after(step, replies) is Finished,
    decreases replies.len(),
{
    match step {
        CommitStep::Finished { outcome } => {},
        CommitStep::Ask { transaction, request } => {
            lemma_reply_advances(transaction, request, replies[0]);
            lemma_ends(next_step(transaction, replies[0]), replies.drop_first());
        },
    }
}

/// From a step where a commit is asked for in the last phase only, a
/// commit is asked for once at most.
proof fn lemma_commits_once(step: CommitStep, replies: Seq<StoreReply>)
    requires
        commit_is_last(step),
    ensures
        commits_asked(step, replies) <= 1,
    decreases replies.len(),
{
    match step {
        CommitStep::Finished { outcome } => {},
        CommitStep::Ask { transaction, request } => {
            if replies.len() > 0 {
                lemma_reply_advances(transaction, request, replies[0]);
                lemma_commits_once(next_step(transaction, replies[0]), replies.drop_first());
            }
        },
    }
}

/// A transaction over `n` paths is over after `n + 6` replies at most,
/// whatever the store replies, and asks for a commit once at most: there
/// is no retry, and one call makes one commit, never one for each path.
pub proof fn lemma_transaction_ends(files: Vec<String>, message: String, replies: Seq<StoreReply>)
    ensures
        replies.len() >= files@.len() + 6 ==> after(first_step(files, message), replies) is Finished,
        commits_asked(first_step(files, message), replies) <= 1,
{
    if replies.len() >= files@.len() + 6 {
        lemma_ends(first_step(files, message), replies);
    }
    lemma_commits_once(first_step(files, message), replies);
}

/// The first failure ends a transaction: a reply that says that opening,
/// staging, persisting the index, writing the tree or committing failed is
/// followed by no further request.
pub proof fn lemma_first_failure_ends(transaction: CommitTransaction, cause: String)
    ensures
        !(transaction.phase is ReadingHead) && !(transaction.phase is ResolvingIdentity)
            ==> next_step(transaction, StoreReply::Failed { cause }) matches CommitStep::Finished {
            outcome: Err(_),
        },
{
}

/// The parent of a commit is what HEAD pointed to when it was read: the
/// commit that is asked for after HEAD was read as `head` has `head` as
/// its only parent, and none when there was no HEAD.
pub proof fn lemma_parent_is_head(
    transaction: CommitTransaction,
    head: Option<String>,
    configured: Option<Identity>,
)
    requires
        transaction.phase is ReadingHead,
    ensures
        after(
            CommitStep::Ask { transaction, request: StoreRequest::ReadHead },
            seq![StoreReply::Head { commit: head }, StoreReply::Identity { configured }],
        ) matches CommitStep::Ask { request: StoreRequest::Commit { parent, identity, .. }, .. }
            && parent == head && identity == resolved(configured),
{
    let replies = seq![StoreReply::Head { commit: head }, StoreReply::Identity { configured }];
    let second = next_step(transaction, replies[0]);
    assert(replies.drop_first() =~= seq![StoreReply::Identity { configured }]);
    assert(replies.drop_first().drop_first() =~= Seq::<StoreReply>::empty());
    assert(second matches CommitStep::Ask { transaction: t, request } && after(
        second,
        replies.drop_first(),
    ) == after(next_step(t, StoreReply::Identity { configured }), Seq::<StoreReply>::empty()));
}

/// The tree is written from a persisted index only: the one reply after
/// which a transaction asks for the tree is the one that says that the
/// index was persisted, and the index is persisted only once no path is
/// left to stage.
pub proof fn lemma_tree_follows_flush(transaction: CommitTransaction, reply: StoreReply)
    ensures
        next_step(transaction, reply) matches CommitStep::Ask {
            request: StoreRequest::WriteTree,
            ..
        } ==> transaction.phase is Flushing && reply is Done,
        next_step(transaction, reply) matches CommitStep::Ask { request: StoreRequest::Flush, .. }
            ==> reply is Done && match transaction.phase {
            Phase::Opening => transaction.files@.len() == 0,
            Phase::Staging { path, next } => next >= transaction.files@.len(),
            _ => false,
        },
{
    assert(transaction.files.len() == transaction.files@.len());
}

} // verus!
