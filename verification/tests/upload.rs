use unheard::context::parse_csv;
use unheard::git::CommitError;
use unheard::types::{ContextFileRecord, UploadProgress};
use unheard::upload::{
    commit_message_for, detect_format, upload_context_file, FileFormat, Upload, UploadError,
    UploadPhase, UploadReply, UploadRequest, UploadStep,
};

fn record() -> ContextFileRecord {
    parse_csv("Sales 2024.csv", "region,revenue\nEU,10\n", 1234).unwrap()
}

fn missing() -> UploadReply {
    UploadReply::Missing { path: "\"/p/context/sales-2024.csv\"".to_string() }
}

/// Feeds the replies to an upload and returns what it asked for and how it
/// ended, if it did.
fn drive(extension: &str, replies: Vec<UploadReply>) -> (Vec<UploadRequest>, Option<UploadStep>) {
    let mut requests = Vec::new();
    let mut step = upload_context_file(extension.to_string());
    let mut replies = replies.into_iter();
    loop {
        match step {
            UploadStep::Ask { upload, request } => {
                requests.push(request);
                match replies.next() {
                    Some(reply) => step = upload.advance(reply),
                    None => return (requests, None),
                }
            }
            ended => return (requests, Some(ended)),
        }
    }
}

fn replies_until_commit() -> Vec<UploadReply> {
    vec![
        UploadReply::Notified,
        UploadReply::Found,
        UploadReply::Parsed { record: record() },
        UploadReply::Notified,
        UploadReply::Found,
        missing(),
        UploadReply::Notified,
        UploadReply::Copied,
        UploadReply::Notified,
        UploadReply::Notified,
    ]
}

fn reports(requests: &[UploadRequest]) -> Vec<String> {
    requests
        .iter()
        .filter_map(|request| match request {
            UploadRequest::Notify { progress } => Some(match progress {
                UploadProgress::Parsing { percent } => format!("parsing {percent}"),
                UploadProgress::Copying { percent } => format!("copying {percent}"),
                UploadProgress::Committing { percent } => format!("committing {percent}"),
                UploadProgress::Complete { .. } => "complete".to_string(),
                UploadProgress::Error { .. } => "error".to_string(),
            }),
            _ => None,
        })
        .collect()
}

#[test]
fn upload_reports_parsing_copying_and_committing_in_order() {
    let mut replies = replies_until_commit();
    replies.push(UploadReply::Committed { id: "c0ffee".to_string() });

    let (requests, ended) = drive("csv", replies);

    assert_eq!(
        reports(&requests),
        vec!["parsing 10", "parsing 50", "copying 60", "copying 80", "committing 90"]
    );
    assert_eq!(requests.len(), 11);
    assert!(matches!(requests[1], UploadRequest::CheckSource));
    assert!(matches!(requests[2], UploadRequest::Parse { format: FileFormat::Csv }));
    assert!(matches!(requests[4], UploadRequest::CheckContextDirectory));
    assert!(
        matches!(&requests[5], UploadRequest::CheckDestination { path } if path == "context/sales-2024.csv")
    );
    assert!(matches!(&requests[7], UploadRequest::Copy { path } if path == "context/sales-2024.csv"));
    match &requests[10] {
        UploadRequest::Commit { path, message } => {
            assert_eq!(path, "context/sales-2024.csv");
            assert_eq!(
                message,
                "Add context file: Sales 2024.csv\n\nFile type: csv\nSize: 1234 bytes"
            );
        }
        other => panic!("expected a commit request, got {other:?}"),
    }
    match ended {
        Some(UploadStep::Complete { record }) => {
            assert_eq!(record.stored_filename, "sales-2024.csv");
            assert_eq!(record.detected_type.as_deref(), Some("sales_data"));
        }
        other => panic!("expected completion, got {other:?}"),
    }
}

#[test]
fn failed_commit_fails_the_upload_without_completion() {
    let mut replies = replies_until_commit();
    replies.push(UploadReply::CommitFailed {
        error: CommitError::NotFound { cause: "could not find repository".to_string() },
    });

    let (requests, ended) = drive("csv", replies);

    assert!(!reports(&requests).contains(&"complete".to_string()));
    match ended {
        Some(UploadStep::Failed { error }) => {
            assert!(matches!(error, UploadError::CommitFailed { .. }));
            assert_eq!(
                error.to_string(),
                "Failed to open Git repository: could not find repository"
            );
        }
        other => panic!("expected a failure, got {other:?}"),
    }
}

#[test]
fn missing_source_ends_the_upload_before_parsing() {
    let (requests, ended) = drive("csv", vec![UploadReply::Notified, missing()]);

    assert_eq!(requests.len(), 2);
    match ended {
        Some(UploadStep::Failed { error }) => {
            assert_eq!(error.to_string(), "File does not exist")
        }
        other => panic!("expected a failure, got {other:?}"),
    }
}

#[test]
fn extension_decides_the_parser() {
    assert_eq!(detect_format("csv"), Some(FileFormat::Csv));
    assert_eq!(detect_format("pdf"), Some(FileFormat::Pdf));
    assert_eq!(detect_format("xlsx"), Some(FileFormat::Excel));
    assert_eq!(detect_format("xls"), Some(FileFormat::Excel));
    assert_eq!(detect_format("CSV"), None);
    assert_eq!(detect_format(""), None);

    for (extension, format) in
        [("CSV", FileFormat::Csv), ("Pdf", FileFormat::Pdf), ("XLSX", FileFormat::Excel)]
    {
        let (requests, _) = drive(extension, vec![UploadReply::Notified, UploadReply::Found]);
        assert!(matches!(requests[2], UploadRequest::Parse { format: f } if f == format));
    }
}

#[test]
fn unsupported_extension_is_named_in_lowercase() {
    let (_, ended) = drive("DOCX", vec![UploadReply::Notified, UploadReply::Found]);
    match ended {
        Some(UploadStep::Failed { error }) => {
            assert_eq!(error.to_string(), "Unsupported file type: docx")
        }
        other => panic!("expected a failure, got {other:?}"),
    }

    let (_, ended) = drive("", vec![UploadReply::Notified, UploadReply::Found]);
    match ended {
        Some(UploadStep::Failed { error }) => {
            assert_eq!(error.to_string(), "Unsupported file type: ")
        }
        other => panic!("expected a failure, got {other:?}"),
    }
}

#[test]
fn parse_failure_is_passed_on_as_it_is() {
    let (requests, ended) = drive(
        "csv",
        vec![
            UploadReply::Notified,
            UploadReply::Found,
            UploadReply::Failed { cause: "Failed to read CSV file: denied".to_string() },
        ],
    );
    assert_eq!(reports(&requests), vec!["parsing 10"]);
    match ended {
        Some(UploadStep::Failed { error }) => {
            assert_eq!(error.to_string(), "Failed to read CSV file: denied")
        }
        other => panic!("expected a failure, got {other:?}"),
    }
}

#[test]
fn project_without_context_directory_is_refused() {
    let (requests, ended) = drive(
        "csv",
        vec![
            UploadReply::Notified,
            UploadReply::Found,
            UploadReply::Parsed { record: record() },
            UploadReply::Notified,
            UploadReply::Missing { path: "\"/p/context\"".to_string() },
        ],
    );
    assert_eq!(reports(&requests), vec!["parsing 10", "parsing 50"]);
    match ended {
        Some(UploadStep::Failed { error }) => assert_eq!(
            error.to_string(),
            "Project context directory does not exist: \"/p/context\""
        ),
        other => panic!("expected a failure, got {other:?}"),
    }
}

#[test]
fn existing_destination_is_never_overwritten() {
    let (requests, ended) = drive(
        "csv",
        vec![
            UploadReply::Notified,
            UploadReply::Found,
            UploadReply::Parsed { record: record() },
            UploadReply::Notified,
            UploadReply::Found,
            UploadReply::Found,
        ],
    );
    assert!(!requests.iter().any(|r| matches!(r, UploadRequest::Copy { .. })));
    match ended {
        Some(UploadStep::Failed { error }) => {
            assert!(matches!(error, UploadError::DestinationConflict { .. }));
            assert_eq!(
                error.to_string(),
                "File sales-2024.csv already exists in project context"
            );
        }
        other => panic!("expected a failure, got {other:?}"),
    }
}

#[test]
fn copy_failure_ends_the_upload_before_the_commit() {
    let (requests, ended) = drive(
        "csv",
        vec![
            UploadReply::Notified,
            UploadReply::Found,
            UploadReply::Parsed { record: record() },
            UploadReply::Notified,
            UploadReply::Found,
            missing(),
            UploadReply::Notified,
            UploadReply::Failed { cause: "disk full".to_string() },
        ],
    );
    assert_eq!(reports(&requests), vec!["parsing 10", "parsing 50", "copying 60"]);
    assert!(!requests.iter().any(|r| matches!(r, UploadRequest::Commit { .. })));
    match ended {
        Some(UploadStep::Failed { error }) => {
            assert_eq!(error.to_string(), "Failed to copy file to project: disk full")
        }
        other => panic!("expected a failure, got {other:?}"),
    }
}

#[test]
fn undelivered_reports_do_not_stop_the_upload() {
    let mut replies = replies_until_commit();
    for reply in replies.iter_mut() {
        if matches!(reply, UploadReply::Notified) {
            *reply = UploadReply::Failed { cause: "observer gone".to_string() };
        }
    }
    replies.push(UploadReply::Committed { id: "c0ffee".to_string() });

    let (_, ended) = drive("csv", replies);

    assert!(matches!(ended, Some(UploadStep::Complete { .. })));
}

#[test]
fn reply_of_another_kind_ends_the_upload() {
    let (_, ended) = drive("csv", vec![UploadReply::Notified, UploadReply::Copied]);
    match ended {
        Some(UploadStep::Failed { error }) => {
            assert!(matches!(error, UploadError::UnexpectedReply));
            assert_eq!(error.to_string(), "Unexpected reply to an upload request");
        }
        other => panic!("expected a failure, got {other:?}"),
    }

    let upload =
        Upload { extension: "csv".to_string(), phase: UploadPhase::Committing { record: record() } };
    assert!(matches!(
        upload.advance(UploadReply::Copied),
        UploadStep::Failed { error: UploadError::UnexpectedReply }
    ));
}

#[test]
fn commit_message_names_file_type_and_size() {
    let mut record = record();
    record.original_filename = "Q3.pdf".to_string();
    record.file_type = "pdf".to_string();
    record.size_bytes = 0;
    assert_eq!(
        commit_message_for(&record),
        "Add context file: Q3.pdf\n\nFile type: pdf\nSize: 0 bytes"
    );
    record.size_bytes = 10_485_761;
    assert!(commit_message_for(&record).ends_with("Size: 10485761 bytes"));
}
