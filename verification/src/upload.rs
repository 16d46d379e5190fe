//! The upload of a context file, step by step: what is reported, what is
//! checked and what is done, in which order, and what ends it.
//!
//! The upload owns the decisions. It asks for one operation at a time and
//! is told how the operation went; the caller parses, copies, commits and
//! sends the progress reports.

use vstd::prelude::*;
use crate::git::CommitError;
use crate::text::{blank, concat2, decimal, lemma_not_blank, lowercase, push_decimal, same_text};
use crate::types::{ContextFileRecord, UploadProgress};

verus! {

/// The kinds of file that can be uploaded.
#[derive(Debug, Clone, Copy, PartialEq, Eq, Structural)]
pub enum FileFormat {
    Csv,
    Pdf,
    Excel,
}

/// The format that a lowercase extension stands for, if any.
pub open spec fn format_of(extension: Seq<char>) -> Option<FileFormat> {
    if extension == "csv"@ {
        Some(FileFormat::Csv)
    } else if extension == "pdf"@ {
        Some(FileFormat::Pdf)
    } else if extension == "xlsx"@ || extension == "xls"@ {
        Some(FileFormat::Excel)
    } else {
        None
    }
}

/// Why an upload ended without the file in the project's history.
#[derive(Debug, Clone)]
pub enum UploadError {
    /// There is no file at the source path.
    SourceMissing,
    /// The extension, here in lowercase, is of no format that is parsed.
    Unsupported { extension: String },
    /// The file could not be parsed.
    ParseFailed { cause: String },
    /// The project has no context directory; `path` is how it is shown.
    ContextDirectoryMissing { path: String },
    /// The project already has a file under the stored name.
    DestinationConflict { stored_filename: String },
    /// The file could not be copied into the project.
    CopyFailed { cause: String },
    /// The file was copied and the commit failed.
    CommitFailed { error: CommitError },
    /// A request was answered with a reply of another kind.
    UnexpectedReply,
}

impl UploadError {
    /// The text shown for this error.
    pub open spec fn text(self) -> Seq<char> {
        match self {
            UploadError::SourceMissing => "File does not exist"@,
            UploadError::Unsupported { extension } => "Unsupported file type: "@ + extension@,
            UploadError::ParseFailed { cause } => cause@,
            UploadError::ContextDirectoryMissing { path } =>
                "Project context directory does not exist: "@ + path@,
            UploadError::DestinationConflict { stored_filename } => "File "@ + stored_filename@
                + " already exists in project context"@,
            UploadError::CopyFailed { cause } => "Failed to copy file to project: "@ + cause@,
            UploadError::CommitFailed { error } => error.text(),
            UploadError::UnexpectedReply => "Unexpected reply to an upload request"@,
        }
    }

    /// Renders the error for display.
    pub fn to_string(&self) -> (s: String)
        ensures
            s@ == self.text(),
    {
        match self {
            UploadError::SourceMissing => "File does not exist".to_owned(),
            UploadError::Unsupported { extension } => concat2(
                "Unsupported file type: ",
                extension.as_str(),
            ),
            UploadError::ParseFailed { cause } => cause.clone(),
            UploadError::ContextDirectoryMissing { path } => concat2(
                "Project context directory does not exist: ",
                path.as_str(),
            ),
            UploadError::DestinationConflict { stored_filename } => {
                let mut s = concat2("File ", stored_filename.as_str());
                s.append(" already exists in project context");
                s
            },
            UploadError::CopyFailed { cause } => concat2(
                "Failed to copy file to project: ",
                cause.as_str(),
            ),
            UploadError::CommitFailed { error } => error.to_string(),
            UploadError::UnexpectedReply => "Unexpected reply to an upload request".to_owned(),
        }
    }
}

/// One operation asked of the caller.
#[derive(Debug, Clone)]
pub enum UploadRequest {
    /// Send a progress report. Delivery is best effort.
    Notify { progress: UploadProgress },
    /// Say whether the source file exists.
    CheckSource,
    /// Parse the source file as `format`.
    Parse { format: FileFormat },
    /// Say whether the project has its context directory.
    CheckContextDirectory,
    /// Say whether the project has a file at `path`.
    CheckDestination { path: String },
    /// Copy the source file to `path` in the project.
    Copy { path: String },
    /// Run a commit transaction over `path` alone under `message`.
    Commit { path: String, message: String },
}

/// How the caller answered a request.
#[derive(Debug, Clone)]
pub enum UploadReply {
    /// The report was handed to the observer, delivered or not.
    Notified,
    /// What was asked about exists.
    Found,
    /// What was asked about does not exist; `path` is how it is shown.
    Missing { path: String },
    /// The record of the parsed file.
    Parsed { record: ContextFileRecord },
    /// The file was copied.
    Copied,
    /// The commit transaction committed.
    Committed { id: String },
    /// The commit transaction failed.
    CommitFailed { error: CommitError },
    /// Parsing or copying failed.
    Failed { cause: String },
}

/// What an upload is waiting for.
#[derive(Debug, Clone)]
pub enum UploadPhase {
    /// The start of parsing is being reported.
    Announcing,
    /// The source file is being looked for.
    CheckingSource,
    /// The file is being parsed.
    Parsing,
    /// The end of parsing is being reported.
    Parsed { record: ContextFileRecord },
    /// The context directory is being looked for.
    CheckingContext { record: ContextFileRecord },
    /// The destination is being looked for.
    CheckingDestination { record: ContextFileRecord },
    /// The start of copying is being reported.
    ReadyToCopy { record: ContextFileRecord },
    /// The file is being copied.
    Copying { record: ContextFileRecord },
    /// The end of copying is being reported.
    Copied { record: ContextFileRecord },
    /// The start of the commit is being reported.
    ReadyToCommit { record: ContextFileRecord },
    /// The file is being committed.
    Committing { record: ContextFileRecord },
}

/// An upload in flight.
#[derive(Debug, Clone)]
pub struct Upload {
    /// Extension of the source file as it is written, without the dot.
    pub extension: String,
    /// The operation whose reply is awaited.
    pub phase: UploadPhase,
}

/// Where an upload stands after a move.
#[derive(Debug)]
pub enum UploadStep {
    /// The caller is asked for `request`; the reply goes to `advance`.
    Ask { upload: Upload, request: UploadRequest },
    /// The file is in the project and in its history: completion is
    /// reported with `record`, and `record` is the result.
    Complete { record: ContextFileRecord },
    /// The upload failed; no completion is reported.
    Failed { error: UploadError },
}

/// The message of the commit that adds an uploaded file.
pub open spec fn upload_commit_message(record: ContextFileRecord) -> Seq<char> {
    "Add context file: "@ + record.original_filename@ + "\n\nFile type: "@ + record.file_type@
        + "\nSize: "@ + decimal(record.size_bytes as nat) + " bytes"@
}

/// The step that puts the upload in `phase` and asks for `request`.
pub open spec fn ask(upload: Upload, phase: UploadPhase, request: UploadRequest) -> UploadStep {
    UploadStep::Ask { upload: Upload { extension: upload.extension, phase }, request }
}

/// The step that reports `progress` and puts the upload in `phase`.
pub open spec fn report(upload: Upload, phase: UploadPhase, progress: UploadProgress) -> UploadStep {
    ask(upload, phase, UploadRequest::Notify { progress })
}

/// The first step of the upload of a file with `extension`: the report that
/// parsing starts.
pub open spec fn first_step(extension: String) -> UploadStep {
    UploadStep::Ask {
        upload: Upload { extension, phase: UploadPhase::Announcing },
        request: UploadRequest::Notify { progress: UploadProgress::Parsing { percent: 10 } },
    }
}

/// `step` follows `reply` in `upload`.
///
/// Reports are sent in a fixed order, parsing before copying before
/// committing, and never decide anything: whatever the reply to a report,
/// the upload goes on. The source must exist and be of a supported format;
/// the project must have its context directory and no file under the
/// stored name; a failure to parse, copy or commit ends the upload.
/// Completion comes only from a commit that succeeded.
pub open spec fn follows(upload: Upload, reply: UploadReply, step: UploadStep) -> bool {
    match upload.phase {
        UploadPhase::Announcing => step == ask(
            upload,
            UploadPhase::CheckingSource,
            UploadRequest::CheckSource,
        ),
        UploadPhase::CheckingSource => match reply {
            UploadReply::Found => match format_of(lowercase(upload.extension@)) {
                Some(format) => step == ask(
                    upload,
                    UploadPhase::Parsing,
                    UploadRequest::Parse { format },
                ),
                None => step matches UploadStep::Failed {
                    error: UploadError::Unsupported { extension },
                } && extension@ == lowercase(upload.extension@),
            },
            UploadReply::Missing { path } => step == (UploadStep::Failed {
                error: UploadError::SourceMissing,
            }),
            _ => step == (UploadStep::Failed { error: UploadError::UnexpectedReply }),
        },
        UploadPhase::Parsing => match reply {
            UploadReply::Parsed { record } => step == report(
                upload,
                UploadPhase::Parsed { record },
                UploadProgress::Parsing { percent: 50 },
            ),
            UploadReply::Failed { cause } => step == (UploadStep::Failed {
                error: UploadError::ParseFailed { cause },
            }),
            _ => step == (UploadStep::Failed { error: UploadError::UnexpectedReply }),
        },
        UploadPhase::Parsed { record } => step == ask(
            upload,
            UploadPhase::CheckingContext { record },
            UploadRequest::CheckContextDirectory,
        ),
        UploadPhase::CheckingContext { record } => match reply {
            UploadReply::Found => step == ask(
                upload,
                UploadPhase::CheckingDestination { record },
                UploadRequest::CheckDestination { path: record.relative_file_path },
            ),
            UploadReply::Missing { path } => step == (UploadStep::Failed {
                error: UploadError::ContextDirectoryMissing { path },
            }),
            _ => step == (UploadStep::Failed { error: UploadError::UnexpectedReply }),
        },
        UploadPhase::CheckingDestination { record } => match reply {
            UploadReply::Missing { path } => step == report(
                upload,
                UploadPhase::ReadyToCopy { record },
                UploadProgress::Copying { percent: 60 },
            ),
            UploadReply::Found => step == (UploadStep::Failed {
                error: UploadError::DestinationConflict { stored_filename: record.stored_filename },
            }),
            _ => step == (UploadStep::Failed { error: UploadError::UnexpectedReply }),
        },
        UploadPhase::ReadyToCopy { record } => step == ask(
            upload,
            UploadPhase::Copying { record },
            UploadRequest::Copy { path: record.relative_file_path },
        ),
        UploadPhase::Copying { record } => match reply {
            UploadReply::Copied => step == report(
                upload,
                UploadPhase::Copied { record },
                UploadProgress::Copying { percent: 80 },
            ),
            UploadReply::Failed { cause } => step == (UploadStep::Failed {
                error: UploadError::CopyFailed { cause },
            }),
            _ => step == (UploadStep::Failed { error: UploadError::UnexpectedReply }),
        },
        UploadPhase::Copied { record } => step == report(
            upload,
            UploadPhase::ReadyToCommit { record },
            UploadProgress::Committing { percent: 90 },
        ),
        UploadPhase::ReadyToCommit { record } => step matches UploadStep::Ask {
            upload: next,
            request: UploadRequest::Commit { path, message },
        } && next == (Upload {
            extension: upload.extension,
            phase: UploadPhase::Committing { record },
        }) && path == record.relative_file_path && message@ == upload_commit_message(record),
        UploadPhase::Committing { record } => match reply {
            UploadReply::Committed { id } => step == (UploadStep::Complete { record }),
            UploadReply::CommitFailed { error } => step == (UploadStep::Failed {
                error: UploadError::CommitFailed { error },
            }),
            _ => step == (UploadStep::Failed { error: UploadError::UnexpectedReply }),
        },
    }
}

/// Decides the format that a lowercase extension stands for.
pub fn detect_format(extension: &str) -> (format: Option<FileFormat>)
    ensures
        format == format_of(extension@),
{
    if same_text(extension, "csv") {
        Some(FileFormat::Csv)
    } else if same_text(extension, "pdf") {
        Some(FileFormat::Pdf)
    } else if same_text(extension, "xlsx") || same_text(extension, "xls") {
        Some(FileFormat::Excel)
    } else {
        None
    }
}

/// Builds the message of the commit that adds an uploaded file.
pub fn commit_message_for(record: &ContextFileRecord) -> (message: String)
    ensures
        message@ == upload_commit_message(*record),
{
    let mut message = concat2("Add context file: ", record.original_filename.as_str());
    message.append("\n\nFile type: ");
    message.append(record.file_type.as_str());
    message.append("\nSize: ");
    push_decimal(&mut message, record.size_bytes as u128);
    message.append(" bytes");
    message
}

/// Starts the upload of a file whose extension, as it is written and
/// without the dot, is `extension`.
pub fn upload_context_file(extension: String) -> (step: UploadStep)
    ensures
        step == first_step(extension),
{
    UploadStep::Ask {
        upload: Upload { extension, phase: UploadPhase::Announcing },
        request: UploadRequest::Notify { progress: UploadProgress::Parsing { percent: 10 } },
    }
}

impl Upload {
    /// Takes the reply to the pending request and decides what follows.
    pub fn advance(self, reply: UploadReply) -> (step: UploadStep)
        ensures
            follows(self, reply, step),
    {
        let Upload { extension, phase } = self;
        match phase {
            UploadPhase::Announcing => UploadStep::Ask {
                upload: Upload { extension, phase: UploadPhase::CheckingSource },
                request: UploadRequest::CheckSource,
            },
            UploadPhase::CheckingSource => match reply {
                UploadReply::Found => {
                    let lowered = extension.as_str().to_lowercase();
                    match detect_format(lowered.as_str()) {
                        Some(format) => UploadStep::Ask {
                            upload: Upload { extension, phase: UploadPhase::Parsing },
                            request: UploadRequest::Parse { format },
                        },
                        None => UploadStep::Failed {
                            error: UploadError::Unsupported { extension: lowered },
                        },
                    }
                },
                UploadReply::Missing { path } => UploadStep::Failed {
                    error: UploadError::SourceMissing,
                },
                _ => UploadStep::Failed { error: UploadError::UnexpectedReply },
            },
            UploadPhase::Parsing => match reply {
                UploadReply::Parsed { record } => UploadStep::Ask {
                    upload: Upload { extension, phase: UploadPhase::Parsed { record } },
                    request: UploadRequest::Notify {
                        progress: UploadProgress::Parsing { percent: 50 },
                    },
                },
                UploadReply::Failed { cause } => UploadStep::Failed {
                    error: UploadError::ParseFailed { cause },
                },
                _ => UploadStep::Failed { error: UploadError::UnexpectedReply },
            },
            UploadPhase::Parsed { record } => UploadStep::Ask {
                upload: Upload { extension, phase: UploadPhase::CheckingContext { record } },
                request: UploadRequest::CheckContextDirectory,
            },
            UploadPhase::CheckingContext { record } => match reply {
                UploadReply::Found => {
                    let path = record.relative_file_path.clone();
                    UploadStep::Ask {
                        upload: Upload {
                            extension,
                            phase: UploadPhase::CheckingDestination { record },
                        },
                        request: UploadRequest::CheckDestination { path },
                    }
                },
                UploadReply::Missing { path } => UploadStep::Failed {
                    error: UploadError::ContextDirectoryMissing { path },
                },
                _ => UploadStep::Failed { error: UploadError::UnexpectedReply },
            },
            UploadPhase::CheckingDestination { record } => match reply {
                UploadReply::Missing { path } => UploadStep::Ask {
                    upload: Upload { extension, phase: UploadPhase::ReadyToCopy { record } },
                    request: UploadRequest::Notify {
                        progress: UploadProgress::Copying { percent: 60 },
                    },
                },
                UploadReply::Found => UploadStep::Failed {
                    error: UploadError::DestinationConflict {
                        stored_filename: record.stored_filename,
                    },
                },
                _ => UploadStep::Failed { error: UploadError::UnexpectedReply },
            },
            UploadPhase::ReadyToCopy { record } => {
                let path = record.relative_file_path.clone();
                UploadStep::Ask {
                    upload: Upload { extension, phase: UploadPhase::Copying { record } },
                    request: UploadRequest::Copy { path },
                }
            },
            UploadPhase::Copying { record } => match reply {
                UploadReply::Copied => UploadStep::Ask {
                    upload: Upload { extension, phase: UploadPhase::Copied { record } },
                    request: UploadRequest::Notify {
                        progress: UploadProgress::Copying { percent: 80 },
                    },
                },
                UploadReply::Failed { cause } => UploadStep::Failed {
                    error: UploadError::CopyFailed { cause },
                },
                _ => UploadStep::Failed { error: UploadError::UnexpectedReply },
            },
            UploadPhase::Copied { record } => UploadStep::Ask {
                upload: Upload { extension, phase: UploadPhase::ReadyToCommit { record } },
                request: UploadRequest::Notify {
                    progress: UploadProgress::Committing { percent: 90 },
                },
            },
            UploadPhase::ReadyToCommit { record } => {
                let path = record.relative_file_path.clone();
                let message = commit_message_for(&record);
                UploadStep::Ask {
                    upload: Upload { extension, phase: UploadPhase::Committing { record } },
                    request: UploadRequest::Commit { path, message },
                }
            },
            UploadPhase::Committing { record } => match reply {
                UploadReply::Committed { id } => UploadStep::Complete { record },
                UploadReply::CommitFailed { error } => UploadStep::Failed {
                    error: UploadError::CommitFailed { error },
                },
                _ => UploadStep::Failed { error: UploadError::UnexpectedReply },
            },
        }
    }
}

/// The place of a phase in the course of an upload.
pub open spec fn phase_rank(phase: UploadPhase) -> nat {
    match phase {
        UploadPhase::Announcing => 0,
        UploadPhase::CheckingSource => 1,
        UploadPhase::Parsing => 2,
        UploadPhase::Parsed { record } => 3,
        UploadPhase::CheckingContext { record } => 4,
        UploadPhase::CheckingDestination { record } => 5,
        UploadPhase::ReadyToCopy { record } => 6,
        UploadPhase::Copying { record } => 7,
        UploadPhase::Copied { record } => 8,
        UploadPhase::ReadyToCommit { record } => 9,
        UploadPhase::Committing { record } => 10,
    }
}

/// `request` is what an upload asks for when it enters `phase`: each phase
/// has its own request, and the five reports are, in the order of the
/// phases, parsing at 10 and at 50, copying at 60 and at 80, committing
/// at 90.
pub open spec fn is_request_of(phase: UploadPhase, request: UploadRequest) -> bool {
    match phase {
        UploadPhase::Announcing => request == (UploadRequest::Notify {
            progress: UploadProgress::Parsing { percent: 10 },
        }),
        UploadPhase::CheckingSource => request is CheckSource,
        UploadPhase::Parsing => request is Parse,
        UploadPhase::Parsed { record } => request == (UploadRequest::Notify {
            progress: UploadProgress::Parsing { percent: 50 },
        }),
        UploadPhase::CheckingContext { record } => request is CheckContextDirectory,
        UploadPhase::CheckingDestination { record } => request is CheckDestination,
        UploadPhase::ReadyToCopy { record } => request == (UploadRequest::Notify {
            progress: UploadProgress::Copying { percent: 60 },
        }),
        UploadPhase::Copying { record } => request is Copy,
        UploadPhase::Copied { record } => request == (UploadRequest::Notify {
            progress: UploadProgress::Copying { percent: 80 },
        }),
        UploadPhase::ReadyToCommit { record } => request == (UploadRequest::Notify {
            progress: UploadProgress::Committing { percent: 90 },
        }),
        UploadPhase::Committing { record } => request is Commit,
    }
}

/// An upload goes through its phases one by one and never back: every
/// step that goes on enters the next phase and asks for the request of
/// that phase. So the reports come in their order, each once at most, the
/// file is copied once and committed once, and an upload is over after
/// eleven replies at most.
pub proof fn lemma_upload_goes_forward(upload: Upload, reply: UploadReply, step: UploadStep)
    requires
        follows(upload, reply, step),
    ensures
        step matches UploadStep::Ask { upload: next, request } ==> phase_rank(next.phase)
            == phase_rank(upload.phase) + 1 && is_request_of(next.phase, request)
            && next.extension == upload.extension,
        upload.phase is Committing ==> !(step is Ask),
        is_request_of(UploadPhase::Announcing, first_step(upload.extension)->request),
{
}

/// Completion is reported only for a file that is committed: the one step
/// that completes an upload is the one that takes the reply of a commit
/// that succeeded, and a commit that failed ends the upload with its
/// error.
pub proof fn lemma_complete_means_committed(upload: Upload, reply: UploadReply, step: UploadStep)
    requires
        follows(upload, reply, step),
    ensures
        step is Complete ==> upload.phase is Committing && reply is Committed,
        upload.phase is Committing && reply is CommitFailed ==> step == (UploadStep::Failed {
            error: UploadError::CommitFailed { error: reply->error },
        }),
{
}

/// The message of the commit of an upload is never blank: the commit
/// transaction does not refuse it.
pub proof fn lemma_upload_message_is_not_blank(record: ContextFileRecord)
    ensures
        !blank(upload_commit_message(record)),
{
    reveal_strlit("Add context file: ");
    assert(upload_commit_message(record)[0] == 'A');
    lemma_not_blank(upload_commit_message(record), 0);
}

} // verus!
