use std::io::Write;
use std::path::{Path, PathBuf};

use git2::{Commit, Index, Oid, Repository, Signature};
use unheard::attio::{batch_save_attio_imports, save_attio_import, AttioImportEntry};
use unheard::experiments::write_experiment_config;
use unheard::git::{git_auto_commit, CommitError, CommitStep, Identity, StoreReply, StoreRequest};
use unheard::procedure::{Procedure, ProcedureError, Reply, Report, Request, Step, Task};
use unheard::projects::{bootstrap_outcome, initialize_git, Listing, TargetProbe};

/// A repository on disk that answers the requests of a transaction.
struct DiskStore {
    root: PathBuf,
    repository: Option<Repository>,
    index: Option<Index>,
    asked: Vec<&'static str>,
}

fn failed(cause: impl std::fmt::Display) -> StoreReply {
    StoreReply::Failed { cause: cause.to_string() }
}

fn done(result: Result<(), git2::Error>) -> StoreReply {
    match result {
        Ok(()) => StoreReply::Done,
        Err(e) => failed(e),
    }
}

fn append_commit(
    repository: &Repository,
    tree: &str,
    parent: Option<&str>,
    identity: &Identity,
    message: &str,
) -> Result<Oid, git2::Error> {
    let tree = repository.find_tree(Oid::from_str(tree)?)?;
    let signature = Signature::now(&identity.name(), &identity.email())?;
    let parent: Option<Commit<'_>> = match parent {
        Some(id) => Some(repository.find_commit(Oid::from_str(id)?)?),
        None => None,
    };
    let parents: Vec<&Commit<'_>> = parent.iter().collect();
    repository.commit(Some("HEAD"), &signature, &signature, message, &tree, &parents)
}

impl DiskStore {
    fn answer(&mut self, request: StoreRequest) -> StoreReply {
        if let StoreRequest::Open = request {
            self.asked.push("open");
            let opened = Repository::open(&self.root).and_then(|r| r.index().map(|i| (r, i)));
            return match opened {
                Ok((repository, index)) => {
                    self.repository = Some(repository);
                    self.index = Some(index);
                    StoreReply::Done
                }
                Err(e) => failed(e),
            };
        }
        let repository = self.repository.as_ref().unwrap();
        let index = self.index.as_mut().unwrap();
        match request {
            StoreRequest::Open => StoreReply::Done,
            StoreRequest::Stage { path } => {
                self.asked.push("stage");
                done(index.add_path(Path::new(&path)))
            }
            StoreRequest::Flush => {
                self.asked.push("flush");
                done(index.write())
            }
            StoreRequest::WriteTree => {
                self.asked.push("write-tree");
                match index.write_tree() {
                    Ok(id) => StoreReply::Tree { id: id.to_string() },
                    Err(e) => failed(e),
                }
            }
            StoreRequest::ReadHead => {
                self.asked.push("read-head");
                let commit = repository
                    .head()
                    .ok()
                    .and_then(|head| head.target())
                    .and_then(|oid| repository.find_commit(oid).ok())
                    .map(|commit| commit.id().to_string());
                StoreReply::Head { commit }
            }
            StoreRequest::ReadIdentity => {
                self.asked.push("read-identity");
                let configured = repository.signature().ok().and_then(|signature| {
                    Some(Identity::Configured {
                        name: signature.name().ok()?.to_string(),
                        email: signature.email().ok()?.to_string(),
                    })
                });
                StoreReply::Identity { configured }
            }
            StoreRequest::Commit { tree, parent, identity, message } => {
                self.asked.push("commit");
                match append_commit(repository, &tree, parent.as_deref(), &identity, &message) {
                    Ok(id) => StoreReply::Committed { id: id.to_string() },
                    Err(e) => failed(e),
                }
            }
        }
    }
}

/// Runs a whole transaction against the repository at `root`.
fn commit_paths(root: &Path, files: &[&str], message: &str) -> Result<String, CommitError> {
    let mut store =
        DiskStore { root: root.to_path_buf(), repository: None, index: None, asked: Vec::new() };
    let files = files.iter().map(|f| f.to_string()).collect();
    let mut step = git_auto_commit(files, message.to_string());
    loop {
        match step {
            CommitStep::Finished { outcome } => return outcome,
            CommitStep::Ask { transaction, request } => {
                let reply = store.answer(request);
                step = transaction.advance(reply);
            }
        }
    }
}

/// A fresh directory for one test, removed when the test is over.
struct Scratch {
    directory: tempfile::TempDir,
    root: PathBuf,
}

impl Scratch {
    fn new() -> Scratch {
        let directory = tempfile::TempDir::new().unwrap();
        let root = directory.path().to_path_buf();
        Scratch { directory, root }
    }

    fn with_repository() -> Scratch {
        let scratch = Scratch::new();
        Repository::init(&scratch.root).unwrap();
        scratch
    }

    /// Makes the directory `path` below the root, and those above it.
    fn make_directory(&self, path: &Path) {
        let mut made = self.root.clone();
        for name in path.components() {
            let next = made.join(name.as_os_str());
            if !next.exists() {
                let directory = tempfile::Builder::new()
                    .prefix(name.as_os_str())
                    .rand_bytes(0)
                    .tempdir_in(&made)
                    .unwrap();
                let _ = directory.keep();
            }
            made = next;
        }
    }

    /// Writes a file at `path` below the root.
    fn write(&self, path: &str, content: &[u8]) {
        let target = self.root.join(path);
        if let Some(parent) = Path::new(path).parent() {
            self.make_directory(parent);
        }
        let mut file = tempfile::NamedTempFile::new_in(target.parent().unwrap()).unwrap();
        file.write_all(content).unwrap();
        file.persist(target).unwrap();
    }

    /// Carries out a procedure on the directory, as the application does.
    fn carry_out(&self, plan: Procedure) -> Result<Report, ProcedureError> {
        let mut step = plan.begin();
        loop {
            match step {
                Step::Finished { outcome } => return outcome,
                Step::Ask { run, request } => {
                    let reply = match request {
                        Request::Perform { task: Task::CreateRepository } => {
                            match Repository::init(&self.root) {
                                Ok(_) => Reply::Done,
                                Err(e) => Reply::Failed { cause: e.to_string() },
                            }
                        }
                        Request::Perform { task: Task::EnsureDirectory { path } } => {
                            self.make_directory(Path::new(&path));
                            Reply::Done
                        }
                        Request::Perform { task: Task::WriteFile { path, content } } => {
                            if self.root.join(&path).parent().is_some_and(|p| p.is_dir()) {
                                self.write(&path, content.as_bytes());
                                Reply::Done
                            } else {
                                Reply::Failed { cause: "No such file or directory".to_string() }
                            }
                        }
                        Request::ProbeLargeObjects => Reply::Probed { tool_run: None },
                        Request::Commit { paths, message } => {
                            let files: Vec<&str> = paths.iter().map(|p| p.as_str()).collect();
                            Reply::Committed { outcome: commit_paths(&self.root, &files, &message) }
                        }
                    };
                    step = run.advance(reply);
                }
            }
        }
    }
}

fn blob_at(repository: &Repository, commit: &str, path: &str) -> Vec<u8> {
    let commit = repository.find_commit(Oid::from_str(commit).unwrap()).unwrap();
    let entry = commit.tree().unwrap().get_path(Path::new(path)).unwrap();
    repository.find_blob(entry.id()).unwrap().content().to_vec()
}

fn tree_of(repository: &Repository, commit: &str) -> String {
    repository.find_commit(Oid::from_str(commit).unwrap()).unwrap().tree_id().to_string()
}

#[test]
fn repository_on_disk_takes_a_first_and_a_second_commit() {
    let scratch = Scratch::with_repository();
    scratch.write("context/test.csv", b"name,age\nAlice,30\nBob,25");
    scratch.write("decisions/d.md", b"# why\n");

    let first = commit_paths(&scratch.root, &["context/test.csv"], "Add context: test.csv").unwrap();
    assert_eq!(first.len(), 40);
    assert!(first.chars().all(|c| c.is_ascii_hexdigit()));

    let second = commit_paths(&scratch.root, &["decisions/d.md"], "Create decision: d.md").unwrap();

    let repository = Repository::open(&scratch.root).unwrap();
    let head = repository.head().unwrap().peel_to_commit().unwrap();
    assert_eq!(head.id().to_string(), second);
    assert_eq!(head.message().unwrap(), "Create decision: d.md");
    assert_eq!(head.parent_count(), 1);
    assert_eq!(head.parent(0).unwrap().id().to_string(), first);
    assert_eq!(head.parent(0).unwrap().parent_count(), 0);

    // The second commit is a new one, and the first is as it was.
    assert_ne!(first, second);
    assert_eq!(head.parent(0).unwrap().message().unwrap(), "Add context: test.csv");

    // The second tree is a snapshot of the whole repository.
    assert_eq!(blob_at(&repository, &second, "context/test.csv"), b"name,age\nAlice,30\nBob,25");
    assert_eq!(blob_at(&repository, &second, "decisions/d.md"), b"# why\n");
    assert_eq!(blob_at(&repository, &first, "context/test.csv"), b"name,age\nAlice,30\nBob,25");
}

#[test]
fn repository_on_disk_names_trees_by_their_content() {
    let one = Scratch::with_repository();
    let other = Scratch::with_repository();
    for scratch in [&one, &other] {
        scratch.write("a.txt", b"alpha");
        scratch.write("b.txt", b"beta");
        scratch.write("sub/c.txt", b"gamma");
    }

    let forward = commit_paths(&one.root, &["a.txt", "b.txt", "sub/c.txt"], "forward").unwrap();
    let backward = commit_paths(&other.root, &["sub/c.txt", "b.txt", "a.txt"], "backward").unwrap();

    let first = Repository::open(&one.root).unwrap();
    let second = Repository::open(&other.root).unwrap();
    assert_eq!(tree_of(&first, &forward), tree_of(&second, &backward));
}

#[test]
fn repository_on_disk_is_untouched_by_refused_arguments() {
    let scratch = Scratch::with_repository();
    scratch.write("p.txt", b"p");

    let no_files = commit_paths(&scratch.root, &[], "msg");
    let no_message = commit_paths(&scratch.root, &["p.txt"], "");

    assert!(matches!(no_files, Err(CommitError::InvalidArgument { .. })));
    assert!(matches!(no_message, Err(CommitError::InvalidArgument { .. })));
    let repository = Repository::open(&scratch.root).unwrap();
    assert!(repository.head().is_err());
    assert!(repository.index().unwrap().is_empty());
}

#[test]
fn directory_without_repository_is_reported() {
    let scratch = Scratch::new();

    let result = commit_paths(&scratch.root, &["test.csv"], "Test commit");

    let error = result.unwrap_err();
    assert!(matches!(error, CommitError::NotFound { .. }));
    assert!(error.to_string().contains("Failed to open Git repository"));
}

#[test]
fn file_that_is_not_on_disk_cannot_be_staged() {
    let scratch = Scratch::with_repository();
    scratch.write("a.txt", b"a");

    let result = commit_paths(&scratch.root, &["a.txt", "b.txt"], "two");

    match result {
        Err(CommitError::StageFailed { path, .. }) => assert_eq!(path, "b.txt"),
        other => panic!("expected a staging failure, got {other:?}"),
    }
    let repository = Repository::open(&scratch.root).unwrap();
    assert!(repository.head().is_err());
}

#[test]
fn bootstrap_makes_the_first_commit_of_a_project() {
    let scratch = Scratch::new();
    scratch.write(".DS_Store", b"");
    let probe = TargetProbe {
        exists: scratch.root.exists(),
        is_directory: scratch.root.is_dir(),
        has_repository: scratch.root.join(".git").exists(),
        entries: Listing::Entries { names: vec![".DS_Store".to_string()] },
    };

    let plan = initialize_git(&probe).unwrap();
    let report = scratch.carry_out(plan).unwrap();
    let result = bootstrap_outcome(scratch.root.to_string_lossy().to_string(), report);

    assert!(result.success);
    assert!(scratch.root.join("context").exists());
    assert!(scratch.root.join("decisions").exists());
    assert!(scratch.root.join("experiments").exists());
    assert!(scratch.root.join(".gitattributes").exists());
    assert!(scratch.root.join("README.md").exists());
    assert!(scratch.root.join(".git").exists());

    let repository = Repository::open(&scratch.root).unwrap();
    let head = repository.head().unwrap();
    assert!(head.is_branch());
    let first = head.peel_to_commit().unwrap();
    assert_eq!(Some(first.id().to_string()), result.commit_hash);
    assert_eq!(first.parent_count(), 0);
    assert_eq!(first.message().unwrap(), "Initial commit: Set up project structure");
    assert_eq!(first.author().name().unwrap_or_default(), first.committer().name().unwrap_or_default());
    let id = first.id().to_string();
    assert!(blob_at(&repository, &id, ".gitattributes").starts_with(b"# Git LFS tracking"));
    assert!(blob_at(&repository, &id, "README.md").starts_with(b"# Unheard Project"));

    // A directory that holds a repository is not eligible again.
    let again = TargetProbe {
        exists: true,
        is_directory: true,
        has_repository: scratch.root.join(".git").exists(),
        entries: Listing::Entries { names: vec![] },
    };
    assert!(initialize_git(&again).unwrap_err().contains(".git exists"));
}

#[test]
fn batch_import_is_written_and_committed_once() {
    let scratch = Scratch::with_repository();
    scratch.write(".gitkeep", b"");
    let initial = commit_paths(&scratch.root, &[".gitkeep"], "Initial commit").unwrap();
    let imports: Vec<AttioImportEntry> = ["acme-corp", "globex", "initech"]
        .iter()
        .map(|name| AttioImportEntry {
            object_type: "company".to_string(),
            record_id: format!("uuid-{name}"),
            filename: name.to_string(),
            json_content: format!("{{\"name\":\"{name}\"}}"),
        })
        .collect();

    let report = scratch.carry_out(batch_save_attio_imports(&imports).unwrap()).unwrap();
    let paths = report.written_paths();
    assert!(report.commit_hash.is_some());

    assert_eq!(paths.len(), 3);
    for path in &paths {
        assert!(scratch.root.join(path).exists());
    }
    let repository = Repository::open(&scratch.root).unwrap();
    let commit = repository.head().unwrap().peel_to_commit().unwrap();
    assert_eq!(commit.message().unwrap(), "Import 3 Attio records");
    assert_eq!(commit.parent_count(), 1);
    assert_eq!(commit.parent(0).unwrap().id().to_string(), initial);
    assert_eq!(commit.parent(0).unwrap().message().unwrap(), "Initial commit");
    let id = commit.id().to_string();
    assert_eq!(blob_at(&repository, &id, "attio/company/globex.json"), b"{\"name\":\"globex\"}");
}

#[test]
fn import_is_saved_even_where_there_is_no_repository() {
    let scratch = Scratch::new();
    let plan = save_attio_import("company", "uuid-123", "test", "{\"name\":\"Test\"}").unwrap();

    let report = scratch.carry_out(plan).unwrap();

    assert_eq!(report.written_paths(), vec!["attio/company/test.json".to_string()]);
    assert_eq!(report.commit_hash, None);
    assert!(scratch.root.join("attio/company/test.json").exists());
}

#[test]
fn experiment_configs_of_one_name_stand_side_by_side() {
    let scratch = Scratch::with_repository();
    let mut existing: Vec<String> = Vec::new();
    let mut written = Vec::new();

    for _ in 0..3 {
        let plan = write_experiment_config("2026-02-06-test.yaml", "metadata: {id: test}", &existing)
            .unwrap();
        let mut paths = scratch.carry_out(plan).unwrap().written_paths();
        let path = paths.pop().unwrap();
        existing.push(path.trim_start_matches("experiments/").to_string());
        written.push(path);
    }

    assert_eq!(
        written,
        vec![
            "experiments/2026-02-06-test.yaml",
            "experiments/2026-02-06-test-2.yaml",
            "experiments/2026-02-06-test-3.yaml"
        ]
    );
    for path in &written {
        assert!(scratch.root.join(path).exists());
    }
    let repository = Repository::open(&scratch.root).unwrap();
    let head = repository.head().unwrap().peel_to_commit().unwrap();
    assert_eq!(head.message().unwrap(), "[unheard] Add experiment config: 2026-02-06-test-3.yaml");
    assert_eq!(head.parent(0).unwrap().parent_count(), 1);
}

#[test]
fn bootstrap_without_first_commit_fails() {
    let scratch = Scratch::new();
    let probe =
        TargetProbe { exists: true, is_directory: true, has_repository: false, entries: Listing::Entries { names: vec![] } };
    let plan = initialize_git(&probe).unwrap();

    // The repository is never created, so the commit cannot be made.
    let mut step = plan.begin();
    let outcome = loop {
        match step {
            Step::Finished { outcome } => break outcome,
            Step::Ask { run, request } => {
                let reply = match request {
                    Request::Perform { task: Task::EnsureDirectory { path } } => {
                        scratch.make_directory(Path::new(&path));
                        Reply::Done
                    }
                    Request::Perform { task: Task::WriteFile { path, content } } => {
                        scratch.write(&path, content.as_bytes());
                        Reply::Done
                    }
                    Request::Perform { task: Task::CreateRepository } => Reply::Done,
                    Request::ProbeLargeObjects => Reply::Probed { tool_run: Some(true) },
                    Request::Commit { paths, message } => {
                        let files: Vec<&str> = paths.iter().map(|p| p.as_str()).collect();
                        Reply::Committed { outcome: commit_paths(&scratch.root, &files, &message) }
                    }
                };
                step = run.advance(reply);
            }
        }
    };

    let error = outcome.unwrap_err();
    assert!(matches!(error, ProcedureError::CommitFailed { .. }));
    assert!(error.to_string().starts_with("Failed to open Git repository: "));
}
