//! Shared data types and the validation rules for names and settings.

use vstd::prelude::*;
use crate::text::{concat2, decimal, push_decimal, same_text};

verus! {

/// Shortcut that opens the quick pane when the user has chosen none.
pub const DEFAULT_QUICK_PANE_SHORTCUT: &'static str = "CommandOrControl+Shift+.";

/// Largest recovery file that is accepted, in bytes.
pub const MAX_RECOVERY_DATA_BYTES: u32 = 10_485_760;

/// Longest filename that is accepted, in characters.
pub const MAX_FILENAME_CHARS: usize = 100;

/// The shape of a safe filename: a run of ASCII letters, digits, `_` and `-`,
/// optionally followed by one dot and a run of ASCII letters and digits.
pub const FILENAME_PATTERN: &'static str = "^[a-zA-Z0-9_-]+(\\.[a-zA-Z0-9]+)?$";

/// Settings that persist between sessions.
#[derive(Debug, Clone)]
pub struct AppPreferences {
    pub theme: String,
    /// Global shortcut for the quick pane; `None` means the default one.
    pub quick_pane_shortcut: Option<String>,
    /// Preferred language; `None` means the system locale.
    pub language: Option<String>,
}

impl Default for AppPreferences {
    fn default() -> (prefs: Self)
        ensures
            prefs.theme@ == "system"@,
            prefs.quick_pane_shortcut is None,
            prefs.language is None,
    {
        AppPreferences { theme: "system".to_owned(), quick_pane_shortcut: None, language: None }
    }
}

/// Why a recovery operation did not produce data.
#[derive(Debug, Clone)]
pub enum RecoveryError {
    /// The file does not exist.
    FileNotFound,
    /// The filename was rejected.
    ValidationError { message: String },
    /// The data exceeds the size limit.
    DataTooLarge { max_bytes: u32 },
    /// Reading or writing the file failed.
    IoError { message: String },
    /// The data could not be encoded or decoded.
    ParseError { message: String },
}

impl RecoveryError {
    /// The text shown for this error.
    pub open spec fn text(self) -> Seq<char> {
        match self {
            RecoveryError::FileNotFound => "File not found"@,
            RecoveryError::ValidationError { message } => "Validation error: "@ + message@,
            RecoveryError::DataTooLarge { max_bytes } => "Data too large (max "@ + decimal(
                max_bytes as nat,
            ) + " bytes)"@,
            RecoveryError::IoError { message } => "IO error: "@ + message@,
            RecoveryError::ParseError { message } => "Parse error: "@ + message@,
        }
    }

    /// Renders the error for display.
    pub fn to_string(&self) -> (s: String)
        ensures
            s@ == self.text(),
    {
        match self {
            RecoveryError::FileNotFound => "File not found".to_owned(),
            RecoveryError::ValidationError { message } => concat2(
                "Validation error: ",
                message.as_str(),
            ),
            RecoveryError::DataTooLarge { max_bytes } => {
                let mut s = "Data too large (max ".to_owned();
                push_decimal(&mut s, *max_bytes as u128);
                s.append(" bytes)");
                s
            },
            RecoveryError::IoError { message } => concat2("IO error: ", message.as_str()),
            RecoveryError::ParseError { message } => concat2("Parse error: ", message.as_str()),
        }
    }
}

/// An ASCII letter or digit.
pub open spec fn is_ascii_alphanumeric(c: char) -> bool {
    ('a' <= c && c <= 'z') || ('A' <= c && c <= 'Z') || ('0' <= c && c <= '9')
}

/// A character allowed before the extension of a safe filename.
pub open spec fn is_stem_char(c: char) -> bool {
    is_ascii_alphanumeric(c) || c == '_' || c == '-'
}

/// `s` is a non-empty run of stem characters.
pub open spec fn is_stem(s: Seq<char>) -> bool {
    s.len() > 0 && forall|i: int| 0 <= i < s.len() ==> is_stem_char(#[trigger] s[i])
}

/// `s` is a non-empty run of ASCII letters and digits.
pub open spec fn is_extension(s: Seq<char>) -> bool {
    s.len() > 0 && forall|i: int| 0 <= i < s.len() ==> is_ascii_alphanumeric(#[trigger] s[i])
}

/// `s` is a stem, or a stem, one dot and an extension.
pub open spec fn safe_filename(s: Seq<char>) -> bool {
    is_stem(s) || exists|k: int|
        0 < k < s.len() && s[k] == '.' && is_stem(s.subrange(0, k)) && is_extension(
            #[trigger] s.subrange(k + 1, s.len() as int),
        )
}

/// Compiles `pattern` with `regex::Regex::new` and asks `Regex::is_match`
/// whether it matches `text`; `None` when the pattern does not compile.
/// For the filename pattern the crate's syntax gives the answer in closed
/// form: the anchors `^` and `$` bind the match to the whole text, the first
/// class admits ASCII letters, digits, `_` and `-`, and the optional group
/// is a literal dot followed by ASCII letters and digits.
#[verifier::external_body]
fn pattern_matches(pattern: &str, text: &str) -> (found: Option<bool>)
    ensures
        pattern@ == FILENAME_PATTERN@ ==> found == Some(safe_filename(text@)),
{
    match regex::Regex::new(pattern) {
        Ok(re) => Some(re.is_match(text)),
        Err(_) => None,
    }
}

/// The verdict on a filename: `Ok`, or the reason it is refused.
pub open spec fn filename_verdict(filename: Seq<char>) -> Result<(), Seq<char>> {
    if filename.len() == 0 {
        Err("Filename cannot be empty"@)
    } else if filename.len() > MAX_FILENAME_CHARS {
        Err("Filename too long (max 100 characters)"@)
    } else if !safe_filename(filename) {
        Err(
            "Invalid filename: only alphanumeric characters, dashes, underscores, and dots allowed"@,
        )
    } else {
        Ok(())
    }
}

/// A `Result` with a text error, seen through the view of the text.
pub open spec fn verdict_of(r: Result<(), String>) -> Result<(), Seq<char>> {
    match r {
        Ok(_) => Ok(()),
        Err(e) => Err(e@),
    }
}

/// Accepts a filename that is safe to use on a filesystem: non-empty, at
/// most 100 characters, letters, digits, dashes and underscores with at most
/// one extension.
pub fn validate_filename(filename: &str) -> (r: Result<(), String>)
    ensures
        verdict_of(r) == filename_verdict(filename@),
{
    if filename.unicode_len() == 0 {
        return Err("Filename cannot be empty".to_owned());
    }
    if filename.unicode_len() > MAX_FILENAME_CHARS {
        return Err("Filename too long (max 100 characters)".to_owned());
    }
    match pattern_matches(FILENAME_PATTERN, filename) {
        Some(true) => Ok(()),
        _ => Err(
            "Invalid filename: only alphanumeric characters, dashes, underscores, and dots allowed".to_owned(),
        ),
    }
}

/// The verdict on the length of a text field.
pub open spec fn length_verdict(input: Seq<char>, max_len: usize, field_name: Seq<char>) -> Result<
    (),
    Seq<char>,
> {
    if input.len() > max_len {
        Err(field_name + " too long (max "@ + decimal(max_len as nat) + " characters)"@)
    } else {
        Ok(())
    }
}

/// Accepts a text of at most `max_len` characters; the refusal names the
/// field and the limit.
pub fn validate_string_input(input: &str, max_len: usize, field_name: &str) -> (r: Result<
    (),
    String,
>)
    ensures
        verdict_of(r) == length_verdict(input@, max_len, field_name@),
{
    if input.unicode_len() > max_len {
        let mut message = concat2(field_name, " too long (max ");
        push_decimal(&mut message, max_len as u128);
        message.append(" characters)");
        return Err(message);
    }
    Ok(())
}

/// The verdict on a theme name.
pub open spec fn theme_verdict(theme: Seq<char>) -> Result<(), Seq<char>> {
    if theme == "light"@ || theme == "dark"@ || theme == "system"@ {
        Ok(())
    } else {
        Err("Invalid theme: must be 'light', 'dark', or 'system'"@)
    }
}

/// Accepts exactly the themes `light`, `dark` and `system`.
pub fn validate_theme(theme: &str) -> (r: Result<(), String>)
    ensures
        verdict_of(r) == theme_verdict(theme@),
{
    if same_text(theme, "light") || same_text(theme, "dark") || same_text(theme, "system") {
        Ok(())
    } else {
        Err("Invalid theme: must be 'light', 'dark', or 'system'".to_owned())
    }
}

/// What is known of a file stored in a project's context directory.
#[derive(Debug, Clone)]
pub struct ContextFileRecord {
    /// Filename as uploaded.
    pub original_filename: String,
    /// Sanitized filename under which the file is stored.
    pub stored_filename: String,
    /// `csv`, `pdf` or `excel`.
    pub file_type: String,
    /// Category guessed from the column names.
    pub detected_type: Option<String>,
    /// Number of data rows, header excluded.
    pub rows: Option<u32>,
    /// Column names.
    pub columns: Option<Vec<String>>,
    /// First rows of a table.
    pub preview: Option<String>,
    /// Number of pages of a document.
    pub pages: Option<u32>,
    /// First text of a document.
    pub text_preview: Option<String>,
    /// File size in bytes.
    pub size_bytes: u64,
    /// Path relative to the project root.
    pub relative_file_path: String,
    /// Whether the file exceeds the large-object threshold.
    pub is_lfs: bool,
}

/// Progress of an upload, in the order in which it is reported.
#[derive(Debug, Clone)]
pub enum UploadProgress {
    /// The file is being parsed.
    Parsing { percent: u8 },
    /// The file is being copied into the project.
    Copying { percent: u8 },
    /// The file is being committed.
    Committing { percent: u8 },
    /// The upload is complete.
    Complete { record: ContextFileRecord },
    /// The upload failed.
    Error { message: String },
}

/// Summary of a repository's working state.
#[derive(Debug, Clone)]
pub struct GitStatus {
    /// Number of uncommitted changes.
    pub uncommitted_changes: usize,
    /// Whether local history matches the remote.
    pub synced: bool,
}

} // verus!
