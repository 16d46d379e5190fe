//! Context files: the names under which they are stored and what is
//! recorded of a table, a document or a spreadsheet once it is parsed.

use vstd::prelude::*;
use crate::text::{
    concat2,
    contains,
    has_substring,
    letter_or_digit,
    join,
    joined,
    lowercase,
    texts,
};
use crate::types::ContextFileRecord;

verus! {

/// Longest preview that is recorded, in characters, before the ellipsis.
pub const MAX_PREVIEW_CHARS: usize = 500;

/// Size above which a stored file is flagged for large-object storage.
pub const LFS_THRESHOLD_BYTES: u64 = 10_485_760;

/// Most rows that a preview shows.
pub const PREVIEW_ROWS: usize = 10;

/// A name that is a single path component on every platform: not empty,
/// not `.` or `..`, and free of `/`, `\` and `:`.
pub open spec fn is_plain_name(name: Seq<char>) -> bool {
    &&& name.len() > 0
    &&& name != "."@
    &&& name != ".."@
    &&& forall|i: int|
        0 <= i < name.len() ==> #[trigger] name[i] != '/' && name[i] != '\\' && name[i] != ':'
}

/// Position of the last dot of a name, or -1 when it has none.
pub open spec fn last_dot(name: Seq<char>) -> int
    decreases name.len(),
{
    if name.len() == 0 {
        -1
    } else if name.last() == '.' {
        name.len() - 1
    } else {
        last_dot(name.drop_last())
    }
}

/// The stem of a plain name: what stands before its last dot, or all of it
/// when it has no dot but a leading one.
pub open spec fn stem_of(name: Seq<char>) -> Seq<char> {
    if last_dot(name) <= 0 {
        name
    } else {
        name.take(last_dot(name))
    }
}

/// The extension of a plain name: what stands after its last dot, or
/// nothing when it has no dot but a leading one.
pub open spec fn extension_of(name: Seq<char>) -> Seq<char> {
    if last_dot(name) <= 0 {
        Seq::<char>::empty()
    } else {
        name.skip(last_dot(name) + 1)
    }
}

/// `Path::file_stem` of a name, as text, empty when the path has no file
/// name. For a name that is a single component on every platform, std
/// documents the stem as in `stem_of`; for other input the answer depends
/// on the platform's separators and nothing is claimed.
#[verifier::external_body]
fn path_file_stem(filename: &str) -> (stem: String)
    ensures
        is_plain_name(filename@) ==> stem@ == stem_of(filename@),
{
    std::path::Path::new(filename).file_stem().unwrap_or_default().to_string_lossy().into_owned()
}

/// `Path::extension` of a name, as text, empty when the path has none. For
/// a name that is a single component on every platform, std documents the
/// extension as in `extension_of`; for other input the answer depends on
/// the platform's separators and nothing is claimed.
#[verifier::external_body]
fn path_extension(filename: &str) -> (extension: String)
    ensures
        is_plain_name(filename@) ==> extension@ == extension_of(filename@),
{
    std::path::Path::new(filename).extension().unwrap_or_default().to_string_lossy().into_owned()
}

/// The slug of a text: its letters and digits, with one dash wherever
/// other characters stood between two of them.
pub open spec fn slug(s: Seq<char>) -> Seq<char>
    decreases s.len(),
{
    if s.len() == 0 {
        Seq::<char>::empty()
    } else {
        let before = slug(s.drop_last());
        let c = s.last();
        if !letter_or_digit(c) {
            before
        } else if before.len() > 0 && s.len() >= 2 && !letter_or_digit(s[s.len() - 2]) {
            before.push('-').push(c)
        } else {
            before.push(c)
        }
    }
}

/// The stored name made of a stem and an extension: the slug of the stem in
/// lowercase, then a dot and the extension when there is one.
pub open spec fn stored_name(stem: Seq<char>, extension: Seq<char>) -> Seq<char> {
    if extension.len() == 0 {
        slug(lowercase(stem))
    } else {
        slug(lowercase(stem)) + "."@ + extension
    }
}

/// `stored` is the name under which a file called `filename` is stored.
pub open spec fn is_sanitized(filename: Seq<char>, stored: Seq<char>) -> bool {
    exists|stem: Seq<char>, extension: Seq<char>|
        {
            &&& stored == #[trigger] stored_name(stem, extension)
            &&& is_plain_name(filename) ==> stem == stem_of(filename) && extension == extension_of(
                filename,
            )
        }
}

/// Replaces every run of characters that are neither letters nor digits by
/// one dash, and drops such runs at both ends.
pub fn slugify(s: &str) -> (r: String)
    ensures
        r@ == slug(s@),
{
    let mut r = String::new();
    let mut gap: bool = false;
    let mut empty: bool = true;
    for c in it: s.chars()
        invariant
            it.seq() == s@,
            r@ == slug(s@.take(it.index() as int)),
            empty == (r@.len() == 0),
            gap == (it.index() > 0 && !letter_or_digit(s@[it.index() - 1])),
    {
        proof {
            let now = s@.take(it.index() + 1);
            assert(now.drop_last() =~= s@.take(it.index() as int));
            assert(now.last() == c);
            if it.index() > 0 {
                assert(now[now.len() - 2] == s@[it.index() - 1]);
            }
        }
        if c.is_alphanumeric() {
            if gap && !empty {
                r.push('-');
            }
            r.push(c);
            empty = false;
            gap = false;
        } else {
            gap = true;
        }
    }
    assert(s@.take(s@.len() as int) =~= s@);
    r
}

/// Makes the stored name from the stem and the extension of a filename.
pub fn assemble_stored_name(stem: &str, extension: &str) -> (r: String)
    ensures
        r@ == stored_name(stem@, extension@),
{
    let lowered = stem.to_lowercase();
    let slugged = slugify(lowered.as_str());
    if extension.unicode_len() == 0 {
        slugged
    } else {
        let mut r = slugged;
        r.append(".");
        r.append(extension);
        r
    }
}

/// The name under which an uploaded file is stored: lowercase, with dashes
/// for everything that is neither letter nor digit, and the extension kept
/// as it is.
pub fn sanitize_filename(filename: &str) -> (r: String)
    ensures
        is_sanitized(filename@, r@),
        is_plain_name(filename@) ==> r@ == stored_name(
            stem_of(filename@),
            extension_of(filename@),
        ),
{
    let stem = path_file_stem(filename);
    let extension = path_extension(filename);
    let r = assemble_stored_name(stem.as_str(), extension.as_str());
    assert(r@ == stored_name(stem@, extension@));
    r
}

/// One of the column names, in lowercase, holds `word`.
pub open spec fn mentions(columns: Seq<Seq<char>>, word: Seq<char>) -> bool {
    exists|i: int| 0 <= i < columns.len() && has_substring(lowercase(#[trigger] columns[i]), word)
}

/// The category that column names suggest: customers before sales before
/// products.
pub open spec fn csv_type(columns: Seq<Seq<char>>) -> Option<Seq<char>> {
    if mentions(columns, "customer"@) || mentions(columns, "user"@) {
        Some("customer_data"@)
    } else if mentions(columns, "sale"@) || mentions(columns, "revenue"@) {
        Some("sales_data"@)
    } else if mentions(columns, "product"@) {
        Some("product_data"@)
    } else {
        None
    }
}

/// Decides whether one of the lowercase names holds `word`.
fn any_mentions(lowered: &Vec<String>, columns: &[String], word: &str) -> (b: bool)
    requires
        lowered@.len() == columns@.len(),
        forall|i: int| 0 <= i < columns@.len() ==> (#[trigger] lowered@[i])@ == lowercase(columns@[i]@),
    ensures
        b == mentions(texts(columns@), word@),
{
    let mut i: usize = 0;
    while i < lowered.len()
        invariant
            i <= lowered@.len(),
            lowered@.len() == columns@.len(),
            forall|k: int|
                0 <= k < columns@.len() ==> (#[trigger] lowered@[k])@ == lowercase(columns@[k]@),
            forall|k: int|
                0 <= k < i ==> !has_substring(lowercase(#[trigger] texts(columns@)[k]), word@),
        decreases lowered@.len() - i,
    {
        if contains(lowered[i].as_str(), word) {
            assert(has_substring(lowercase(texts(columns@)[i as int]), word@));
            return true;
        }
        i += 1;
    }
    false
}

/// Guesses the category of a table from its column names.
pub fn detect_csv_type(columns: &[String]) -> (r: Option<String>)
    ensures
        match r {
            Some(category) => csv_type(texts(columns@)) == Some(category@),
            None => csv_type(texts(columns@)) is None,
        },
{
    let mut lowered: Vec<String> = Vec::new();
    let mut i: usize = 0;
    while i < columns.len()
        invariant
            i <= columns@.len(),
            lowered@.len() == i,
            forall|k: int| 0 <= k < i ==> (#[trigger] lowered@[k])@ == lowercase(columns@[k]@),
        decreases columns@.len() - i,
    {
        lowered.push(columns[i].as_str().to_lowercase());
        i += 1;
    }
    if any_mentions(&lowered, columns, "customer") || any_mentions(&lowered, columns, "user") {
        Some("customer_data".to_owned())
    } else if any_mentions(&lowered, columns, "sale") || any_mentions(&lowered, columns, "revenue") {
        Some("sales_data".to_owned())
    } else if any_mentions(&lowered, columns, "product") {
        Some("product_data".to_owned())
    } else {
        None
    }
}

/// A preview within the budget: the text itself, or its first 500
/// characters and an ellipsis.
pub open spec fn capped(text: Seq<char>) -> Seq<char> {
    if text.len() > MAX_PREVIEW_CHARS {
        text.take(MAX_PREVIEW_CHARS as int) + "..."@
    } else {
        text
    }
}

/// Cuts a preview down to the budget.
pub fn cap_preview(text: String) -> (r: String)
    ensures
        r@ == capped(text@),
{
    if text.as_str().unicode_len() > MAX_PREVIEW_CHARS {
        let head = text.as_str().substring_char(0, MAX_PREVIEW_CHARS);
        concat2(head, "...")
    } else {
        text
    }
}

/// Whether a file of `size_bytes` bytes exceeds the large-object threshold.
pub fn exceeds_lfs_threshold(size_bytes: u64) -> (large: bool)
    ensures
        large == (size_bytes > LFS_THRESHOLD_BYTES),
{
    size_bytes > LFS_THRESHOLD_BYTES
}

/// A parsed row of a table, field by field, or `None` for a row that could
/// not be read.
pub open spec fn row_texts(row: Option<Vec<String>>) -> Option<Seq<Seq<char>>> {
    match row {
        Some(fields) => Some(texts(fields@)),
        None => None,
    }
}

/// The rows of a table, each as the texts of its fields.
pub open spec fn rows_texts(rows: Seq<Option<Vec<String>>>) -> Seq<Option<Seq<Seq<char>>>> {
    Seq::new(rows.len(), |i: int| row_texts(rows[i]))
}

/// The header row that the `csv` crate reads from a text with its flexible
/// reader, or the text of the crate's error.
pub uninterp spec fn csv_header(content: Seq<char>) -> Result<Seq<Seq<char>>, Seq<char>>;

/// The rows after the header that the `csv` crate reads from a text with
/// its flexible reader; `None` stands for a row that it reports as an error.
pub uninterp spec fn csv_rows(content: Seq<char>) -> Seq<Option<Seq<Seq<char>>>>;

/// Reads the first row of `content` with `csv::Reader::headers`, the fields
/// copied into strings. The reader is built over the bytes of the text with
/// `flexible(true)`; what it reads is a function of the text alone.
#[verifier::external_body]
fn read_csv_header(content: &str) -> (r: Result<Vec<String>, String>)
    ensures
        match r {
            Ok(fields) => csv_header(content@) == Ok::<Seq<Seq<char>>, Seq<char>>(texts(fields@)),
            Err(e) => csv_header(content@) == Err::<Seq<Seq<char>>, Seq<char>>(e@),
        },
{
    let mut reader = csv::ReaderBuilder::new().flexible(true).from_reader(content.as_bytes());
    match reader.headers() {
        Ok(record) => Ok(record.iter().map(|field| field.to_string()).collect()),
        Err(e) => Err(e.to_string()),
    }
}

/// Reads the rows after the first of `content` with `csv::Reader::records`,
/// the fields copied into strings and an error turned into `None`. The
/// reader is built over the bytes of the text with `flexible(true)`; what
/// it reads is a function of the text alone.
#[verifier::external_body]
fn read_csv_rows(content: &str) -> (rows: Vec<Option<Vec<String>>>)
    ensures
        rows_texts(rows@) == csv_rows(content@),
{
    let mut reader = csv::ReaderBuilder::new().flexible(true).from_reader(content.as_bytes());
    reader.records().map(
        |row| row.ok().map(|record| record.iter().map(|field| field.to_string()).collect()),
    ).collect()
}

/// The lines that show the rows that could be read: the fields of each,
/// with commas between them.
pub open spec fn row_lines(rows: Seq<Option<Seq<Seq<char>>>>) -> Seq<Seq<char>>
    decreases rows.len(),
{
    if rows.len() == 0 {
        Seq::<Seq<char>>::empty()
    } else {
        let before = row_lines(rows.drop_last());
        match rows.last() {
            Some(fields) => before.push(joined(fields, ","@)),
            None => before,
        }
    }
}

/// The first rows of a table, ten at most.
pub open spec fn leading<A>(rows: Seq<A>) -> Seq<A> {
    if rows.len() > PREVIEW_ROWS {
        rows.take(PREVIEW_ROWS as int)
    } else {
        rows
    }
}

/// The preview of a table: the header and the first ten rows, one line
/// each, within the budget.
pub open spec fn csv_preview(header: Seq<Seq<char>>, rows: Seq<Option<Seq<Seq<char>>>>) -> Seq<
    char,
> {
    capped(joined(seq![joined(header, ","@)] + row_lines(leading(rows)), "\n"@))
}

/// What every record says of a file called `filename` of `size_bytes`
/// bytes: its names, its place under `context/`, its size and whether it
/// is large.
pub open spec fn describes_file(record: ContextFileRecord, filename: Seq<char>, size_bytes: u64) -> bool {
    &&& record.original_filename@ == filename
    &&& is_sanitized(filename, record.stored_filename@)
    &&& is_plain_name(filename) ==> record.stored_filename@ == stored_name(
        stem_of(filename),
        extension_of(filename),
    )
    &&& record.relative_file_path@ == "context/"@ + record.stored_filename@
    &&& record.size_bytes == size_bytes
    &&& record.is_lfs == (size_bytes > LFS_THRESHOLD_BYTES)
}

/// `record` is the record of a table with this header and these rows.
pub open spec fn is_csv_record(
    record: ContextFileRecord,
    filename: Seq<char>,
    size_bytes: u64,
    header: Seq<Seq<char>>,
    rows: Seq<Option<Seq<Seq<char>>>>,
) -> bool {
    &&& describes_file(record, filename, size_bytes)
    &&& record.file_type@ == "csv"@
    &&& match record.detected_type {
        Some(category) => csv_type(header) == Some(category@),
        None => csv_type(header) is None,
    }
    &&& record.rows == Some(rows.len() as u32)
    &&& record.columns matches Some(columns) && texts(columns@) == header
    &&& record.preview matches Some(preview) && preview@ == csv_preview(header, rows)
    &&& record.pages is None
    &&& record.text_preview is None
}

/// Builds the lines of a table preview.
fn preview_lines(header: &Vec<String>, rows: &Vec<Option<Vec<String>>>) -> (lines: Vec<String>)
    ensures
        texts(lines@) == seq![joined(texts(header@), ","@)] + row_lines(leading(rows_texts(rows@))),
{
    let mut lines: Vec<String> = Vec::new();
    lines.push(join(header, ","));
    let shown: usize = if rows.len() > PREVIEW_ROWS {
        PREVIEW_ROWS
    } else {
        rows.len()
    };
    assert(leading(rows_texts(rows@)) =~= rows_texts(rows@).take(shown as int));
    let mut i: usize = 0;
    while i < shown
        invariant
            i <= shown <= rows@.len(),
            texts(lines@) == seq![joined(texts(header@), ","@)] + row_lines(
                rows_texts(rows@).take(i as int),
            ),
        decreases shown - i,
    {
        proof {
            let now = rows_texts(rows@).take(i + 1);
            assert(now.drop_last() =~= rows_texts(rows@).take(i as int));
            assert(now.last() == row_texts(rows@[i as int]));
        }
        let ghost before = texts(lines@);
        match &rows[i] {
            Some(fields) => {
                let line = join(fields, ",");
                lines.push(line);
                assert(texts(lines@) =~= before.push(joined(texts(fields@), ","@)));
            },
            None => {},
        }
        i += 1;
    }
    lines
}

/// Records a table from its header and its rows: the columns, the number
/// of rows, the category that the columns suggest and a preview.
pub fn csv_record(
    filename: &str,
    size_bytes: u64,
    header: Vec<String>,
    rows: &Vec<Option<Vec<String>>>,
) -> (record: ContextFileRecord)
    ensures
        is_csv_record(record, filename@, size_bytes, texts(header@), rows_texts(rows@)),
{
    let lines = preview_lines(&header, rows);
    let preview = cap_preview(join(&lines, "\n"));
    let detected_type = detect_csv_type(header.as_slice());
    let stored_filename = sanitize_filename(filename);
    let relative_file_path = concat2("context/", stored_filename.as_str());
    ContextFileRecord {
        original_filename: filename.to_owned(),
        stored_filename,
        file_type: "csv".to_owned(),
        detected_type,
        rows: Some(#[verifier::truncate] (rows.len() as u32)),
        columns: Some(header),
        preview: Some(preview),
        pages: None,
        text_preview: None,
        size_bytes,
        relative_file_path,
        is_lfs: exceeds_lfs_threshold(size_bytes),
    }
}

/// Parses the text of a table called `filename`, read from a file of
/// `size_bytes` bytes, and records it. The text is split into header and
/// rows by the `csv` crate; a header that cannot be read fails the parse.
pub fn parse_csv(filename: &str, content: &str, size_bytes: u64) -> (r: Result<
    ContextFileRecord,
    String,
>)
    ensures
        match csv_header(content@) {
            Ok(header) => r matches Ok(record) && is_csv_record(
                record,
                filename@,
                size_bytes,
                header,
                csv_rows(content@),
            ),
            Err(cause) => r matches Err(e) && e@ == "Failed to read CSV headers: "@ + cause,
        },
{
    match read_csv_header(content) {
        Ok(header) => {
            let rows = read_csv_rows(content);
            Ok(csv_record(filename, size_bytes, header, &rows))
        },
        Err(cause) => Err(concat2("Failed to read CSV headers: ", cause.as_str())),
    }
}

/// How the parsing of a document went.
#[derive(Debug, Clone)]
pub enum PdfParse {
    /// The document was read: its number of pages and the text of its
    /// first page.
    Parsed { pages: u32, text: String },
    /// The parser refused the document.
    Failed,
    /// The parser broke down on the document.
    Crashed,
}

/// The text preview of a document that was read.
pub open spec fn pdf_preview(text: Seq<char>) -> Seq<char> {
    if text.len() > MAX_PREVIEW_CHARS {
        capped(text)
    } else if text.len() == 0 {
        "(Image-based PDF, no text extracted)"@
    } else {
        text
    }
}

/// `record` is the record of a document whose parsing went as `parse`.
pub open spec fn is_pdf_record(
    record: ContextFileRecord,
    filename: Seq<char>,
    size_bytes: u64,
    parse: PdfParse,
) -> bool {
    &&& describes_file(record, filename, size_bytes)
    &&& record.file_type@ == "pdf"@
    &&& record.detected_type is None
    &&& record.rows is None
    &&& record.columns is None
    &&& record.preview is None
    &&& match parse {
        PdfParse::Parsed { pages, text } => record.pages == Some(pages) && (
        record.text_preview matches Some(p) && p@ == pdf_preview(text@)),
        PdfParse::Failed => record.pages is None && (record.text_preview matches Some(p) && p@
            == "(Failed to parse PDF)"@),
        PdfParse::Crashed => record.pages is None && (record.text_preview matches Some(p) && p@
            == "(Corrupted PDF)"@),
    }
}

/// Records a document from what its parsing gave. A document that could
/// not be parsed is recorded all the same, with a preview that says so.
pub fn pdf_record(filename: &str, size_bytes: u64, parse: PdfParse) -> (record: ContextFileRecord)
    ensures
        is_pdf_record(record, filename@, size_bytes, parse),
{
    let stored_filename = sanitize_filename(filename);
    let relative_file_path = concat2("context/", stored_filename.as_str());
    let mut pages: Option<u32> = None;
    let text_preview = match parse {
        PdfParse::Parsed { pages: count, text } => {
            pages = Some(count);
            if text.as_str().unicode_len() == 0 {
                "(Image-based PDF, no text extracted)".to_owned()
            } else {
                cap_preview(text)
            }
        },
        PdfParse::Failed => "(Failed to parse PDF)".to_owned(),
        PdfParse::Crashed => "(Corrupted PDF)".to_owned(),
    };
    ContextFileRecord {
        original_filename: filename.to_owned(),
        stored_filename,
        file_type: "pdf".to_owned(),
        detected_type: None,
        rows: None,
        columns: None,
        preview: None,
        pages,
        text_preview: Some(text_preview),
        size_bytes,
        relative_file_path,
        is_lfs: exceeds_lfs_threshold(size_bytes),
    }
}

/// The cells of a spreadsheet's first sheet that a record is made from.
#[derive(Debug, Clone)]
pub struct Sheet {
    /// Number of rows of the sheet, the header row included.
    pub row_count: usize,
    /// The first rows of the sheet, cell by cell; `None` stands for a cell
    /// that the sheet does not have.
    pub leading_rows: Vec<Vec<Option<String>>>,
}

/// The text of a cell; a missing cell reads as empty.
pub open spec fn cell_text(cell: Option<String>) -> Seq<char> {
    match cell {
        Some(text) => text@,
        None => Seq::<char>::empty(),
    }
}

/// The texts of the cells that a row has.
pub open spec fn present_cells(row: Seq<Option<String>>) -> Seq<Seq<char>>
    decreases row.len(),
{
    if row.len() == 0 {
        Seq::<Seq<char>>::empty()
    } else {
        match row.last() {
            Some(text) => present_cells(row.drop_last()).push(text@),
            None => present_cells(row.drop_last()),
        }
    }
}

/// The column names of a sheet: the cells of its first row, or none when
/// the sheet is empty.
pub open spec fn sheet_columns(sheet: Sheet) -> Seq<Seq<char>> {
    if sheet.row_count > 0 && sheet.leading_rows@.len() > 0 {
        present_cells(sheet.leading_rows@[0]@)
    } else {
        Seq::<Seq<char>>::empty()
    }
}

/// The line that shows a row of a sheet: its cells with commas between
/// them.
pub open spec fn sheet_line(row: Seq<Option<String>>) -> Seq<char> {
    joined(Seq::new(row.len(), |i: int| cell_text(row[i])), ","@)
}

/// The preview of a sheet: its first ten rows, one line each, within the
/// budget.
pub open spec fn sheet_preview(rows: Seq<Vec<Option<String>>>) -> Seq<char> {
    capped(
        joined(Seq::new(leading(rows).len(), |i: int| sheet_line(leading(rows)[i]@)), "\n"@),
    )
}

/// The number of rows below the header.
pub open spec fn data_rows(row_count: usize) -> usize {
    if row_count == 0 {
        0
    } else {
        (row_count - 1) as usize
    }
}

/// `record` is the record of a spreadsheet whose first sheet is `sheet`.
pub open spec fn is_excel_record(
    record: ContextFileRecord,
    filename: Seq<char>,
    size_bytes: u64,
    sheet: Sheet,
) -> bool {
    &&& describes_file(record, filename, size_bytes)
    &&& record.file_type@ == "excel"@
    &&& match record.detected_type {
        Some(category) => csv_type(sheet_columns(sheet)) == Some(category@),
        None => csv_type(sheet_columns(sheet)) is None,
    }
    &&& record.rows == Some(data_rows(sheet.row_count) as u32)
    &&& record.columns matches Some(columns) && texts(columns@) == sheet_columns(sheet)
    &&& record.preview matches Some(preview) && preview@ == sheet_preview(sheet.leading_rows@)
    &&& record.pages is None
    &&& record.text_preview is None
}

/// Collects the cells that a row has.
fn collect_present(row: &Vec<Option<String>>) -> (cells: Vec<String>)
    ensures
        texts(cells@) == present_cells(row@),
{
    let mut cells: Vec<String> = Vec::new();
    let mut i: usize = 0;
    while i < row.len()
        invariant
            i <= row@.len(),
            texts(cells@) == present_cells(row@.take(i as int)),
        decreases row@.len() - i,
    {
        proof {
            let now = row@.take(i + 1);
            assert(now.drop_last() =~= row@.take(i as int));
            assert(now.last() == row@[i as int]);
        }
        let ghost before = texts(cells@);
        match &row[i] {
            Some(text) => {
                cells.push(text.clone());
                assert(texts(cells@) =~= before.push(text@));
            },
            None => {},
        }
        i += 1;
    }
    assert(row@.take(row@.len() as int) =~= row@);
    cells
}

/// Renders a row of a sheet as a line.
fn render_row(row: &Vec<Option<String>>) -> (line: String)
    ensures
        line@ == sheet_line(row@),
{
    let mut cells: Vec<String> = Vec::new();
    let mut i: usize = 0;
    while i < row.len()
        invariant
            i <= row@.len(),
            cells@.len() == i,
            forall|k: int| 0 <= k < i ==> (#[trigger] cells@[k])@ == cell_text(row@[k]),
        decreases row@.len() - i,
    {
        let cell = match &row[i] {
            Some(text) => text.clone(),
            None => String::new(),
        };
        cells.push(cell);
        i += 1;
    }
    assert(texts(cells@) =~= Seq::new(row@.len(), |i: int| cell_text(row@[i])));
    join(&cells, ",")
}

/// Records a spreadsheet from the cells of its first sheet: the columns
/// named in its first row, the number of rows below it, the category that
/// the columns suggest and a preview.
pub fn excel_record(filename: &str, size_bytes: u64, sheet: &Sheet) -> (record: ContextFileRecord)
    ensures
        is_excel_record(record, filename@, size_bytes, *sheet),
{
    let columns = if sheet.row_count > 0 && sheet.leading_rows.len() > 0 {
        collect_present(&sheet.leading_rows[0])
    } else {
        Vec::new()
    };
    assert(texts(columns@) =~= sheet_columns(*sheet));
    let shown: usize = if sheet.leading_rows.len() > PREVIEW_ROWS {
        PREVIEW_ROWS
    } else {
        sheet.leading_rows.len()
    };
    assert(leading(sheet.leading_rows@) =~= sheet.leading_rows@.take(shown as int));
    let mut lines: Vec<String> = Vec::new();
    let mut i: usize = 0;
    while i < shown
        invariant
            i <= shown <= sheet.leading_rows@.len(),
            lines@.len() == i,
            forall|k: int|
                0 <= k < i ==> (#[trigger] lines@[k])@ == sheet_line(sheet.leading_rows@[k]@),
        decreases shown - i,
    {
        lines.push(render_row(&sheet.leading_rows[i]));
        i += 1;
    }
    assert(texts(lines@) =~= Seq::new(
        leading(sheet.leading_rows@).len(),
        |i: int| sheet_line(leading(sheet.leading_rows@)[i]@),
    ));
    let preview = cap_preview(join(&lines, "\n"));
    let detected_type = detect_csv_type(columns.as_slice());
    let data: usize = if sheet.row_count == 0 {
        0
    } else {
        sheet.row_count - 1
    };
    let stored_filename = sanitize_filename(filename);
    let relative_file_path = concat2("context/", stored_filename.as_str());
    ContextFileRecord {
        original_filename: filename.to_owned(),
        stored_filename,
        file_type: "excel".to_owned(),
        detected_type,
        rows: Some(#[verifier::truncate] (data as u32)),
        columns: Some(columns),
        preview: Some(preview),
        pages: None,
        text_preview: None,
        size_bytes,
        relative_file_path,
        is_lfs: exceeds_lfs_threshold(size_bytes),
    }
}

/// Picks the sheet that a spreadsheet is recorded from: the first one. A
/// spreadsheet without sheets is refused.
pub fn first_sheet(sheet_names: &Vec<String>) -> (r: Result<String, String>)
    ensures
        match r {
            Ok(name) => sheet_names@.len() > 0 && name == sheet_names@[0],
            Err(e) => sheet_names@.len() == 0 && e@ == "Excel file has no sheets"@,
        },
{
    if sheet_names.len() == 0 {
        Err("Excel file has no sheets".to_owned())
    } else {
        Ok(sheet_names[0].clone())
    }
}

} // verus!
