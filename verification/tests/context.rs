use unheard::context::{
    assemble_stored_name, cap_preview, csv_record, detect_csv_type, exceeds_lfs_threshold,
    excel_record, first_sheet, parse_csv, pdf_record, sanitize_filename, slugify, PdfParse, Sheet,
    LFS_THRESHOLD_BYTES, MAX_PREVIEW_CHARS,
};

fn strings(list: &[&str]) -> Vec<String> {
    list.iter().map(|s| s.to_string()).collect()
}

fn cells(list: &[Option<&str>]) -> Vec<Option<String>> {
    list.iter().map(|c| c.map(|s| s.to_string())).collect()
}

#[test]
fn test_sanitize_filename() {
    assert_eq!(sanitize_filename("My File (1).csv"), "my-file-1.csv");
    assert_eq!(sanitize_filename("Report 2024.pdf"), "report-2024.pdf");
    assert_eq!(sanitize_filename("data__test.xlsx"), "data-test.xlsx");
    assert_eq!(sanitize_filename("simple.csv"), "simple.csv");
}

#[test]
fn test_parse_csv_basic() {
    let csv_content = "name,age,city\nAlice,30,NYC\nBob,25,SF\nCharlie,35,LA\n";

    let record = parse_csv("test.csv", csv_content, csv_content.len() as u64).unwrap();

    assert_eq!(record.file_type, "csv");
    assert_eq!(record.rows, Some(3));
    assert_eq!(
        record.columns,
        Some(vec!["name".to_string(), "age".to_string(), "city".to_string()])
    );
    assert!(record.preview.is_some());
    assert_eq!(record.is_lfs, false);
}

#[test]
fn test_parse_csv_with_detection() {
    let csv_content = "customer_id,customer_name,email\n1,Alice,alice@example.com\n";

    let record = parse_csv("customers.csv", csv_content, csv_content.len() as u64).unwrap();

    assert_eq!(record.detected_type, Some("customer_data".to_string()));
}

#[test]
fn test_parse_pdf_basic() {
    let record = pdf_record("test.pdf", 14, PdfParse::Failed);

    assert_eq!(record.file_type, "pdf");
    assert!(record.text_preview.is_some());
}

#[test]
fn test_lfs_threshold() {
    let record = parse_csv("large.csv", "AAAA", LFS_THRESHOLD_BYTES + 1000).unwrap();

    assert_eq!(record.is_lfs, true);
}

#[test]
fn test_detect_csv_type() {
    let customer_cols = vec!["customer_id".to_string(), "name".to_string()];
    assert_eq!(detect_csv_type(&customer_cols), Some("customer_data".to_string()));

    let sales_cols = vec!["date".to_string(), "revenue".to_string()];
    assert_eq!(detect_csv_type(&sales_cols), Some("sales_data".to_string()));

    let product_cols = vec!["product_id".to_string(), "price".to_string()];
    assert_eq!(detect_csv_type(&product_cols), Some("product_data".to_string()));

    let generic_cols = vec!["id".to_string(), "value".to_string()];
    assert_eq!(detect_csv_type(&generic_cols), None);
}

#[test]
fn detection_prefers_customers_over_sales_over_products() {
    assert_eq!(
        detect_csv_type(&strings(&["Product", "Sales", "USER_ID"])),
        Some("customer_data".to_string())
    );
    assert_eq!(
        detect_csv_type(&strings(&["product", "wholesale"])),
        Some("sales_data".to_string())
    );
    assert_eq!(detect_csv_type(&strings(&["PRODUCTS"])), Some("product_data".to_string()));
    assert_eq!(detect_csv_type(&strings(&[])), None);
    assert_eq!(detect_csv_type(&strings(&["use", "r"])), None);
}

#[test]
fn slug_keeps_letters_and_digits_and_joins_them_with_dashes() {
    assert_eq!(slugify("a  b"), "a-b");
    assert_eq!(slugify("--a--"), "a");
    assert_eq!(slugify("a-b_c.d"), "a-b-c-d");
    assert_eq!(slugify(""), "");
    assert_eq!(slugify("!!!"), "");
    assert_eq!(slugify("x"), "x");
    assert_eq!(slugify("(1)"), "1");
    assert_eq!(slugify("caf\u{e9} 1\u{bd}"), "caf\u{e9}-1\u{bd}");
}

#[test]
fn stored_name_lowers_the_stem_and_keeps_the_extension() {
    assert_eq!(assemble_stored_name("Q3 Report", "PDF"), "q3-report.PDF");
    assert_eq!(assemble_stored_name("Q3 Report", ""), "q3-report");
    assert_eq!(assemble_stored_name("", "csv"), ".csv");
    assert_eq!(assemble_stored_name("\u{c9}t\u{e9}", "csv"), "\u{e9}t\u{e9}.csv");
}

#[test]
fn sanitize_splits_at_the_last_dot() {
    assert_eq!(sanitize_filename("archive.tar.gz"), "archive-tar.gz");
    assert_eq!(sanitize_filename("README"), "readme");
    assert_eq!(sanitize_filename(".hidden"), "hidden");
    assert_eq!(sanitize_filename("trailing."), "trailing");
    assert_eq!(sanitize_filename("UPPER.CSV"), "upper.CSV");
    assert_eq!(sanitize_filename("a.b"), "a.b");
}

#[test]
fn preview_is_capped_at_the_budget() {
    let exact = "x".repeat(MAX_PREVIEW_CHARS);
    assert_eq!(cap_preview(exact.clone()), exact);

    let over = "y".repeat(MAX_PREVIEW_CHARS + 1);
    let capped = cap_preview(over);
    assert_eq!(capped.len(), MAX_PREVIEW_CHARS + 3);
    assert_eq!(capped, format!("{}...", "y".repeat(MAX_PREVIEW_CHARS)));

    assert_eq!(cap_preview(String::new()), "");

    // The budget counts characters, not bytes.
    let accents = "\u{e9}".repeat(MAX_PREVIEW_CHARS);
    assert_eq!(cap_preview(accents.clone()), accents);
    let more = "\u{e9}".repeat(MAX_PREVIEW_CHARS + 5);
    assert_eq!(cap_preview(more), format!("{}...", "\u{e9}".repeat(MAX_PREVIEW_CHARS)));
}

#[test]
fn threshold_is_exclusive() {
    assert_eq!(LFS_THRESHOLD_BYTES, 10_485_760);
    assert!(!exceeds_lfs_threshold(0));
    assert!(!exceeds_lfs_threshold(10_485_760));
    assert!(exceeds_lfs_threshold(10_485_761));
    assert!(exceeds_lfs_threshold(u64::MAX));
}

#[test]
fn csv_record_says_where_the_file_is_stored() {
    let content = "Name,Total Sales\nAda,3\n";
    let record = parse_csv("Q3 Sales (final).csv", content, 23).unwrap();

    assert_eq!(record.original_filename, "Q3 Sales (final).csv");
    assert_eq!(record.stored_filename, "q3-sales-final.csv");
    assert_eq!(record.relative_file_path, "context/q3-sales-final.csv");
    assert_eq!(record.size_bytes, 23);
    assert_eq!(record.detected_type.as_deref(), Some("sales_data"));
    assert_eq!(record.rows, Some(1));
    assert_eq!(record.preview.as_deref(), Some("Name,Total Sales\nAda,3"));
    assert_eq!(record.pages, None);
    assert_eq!(record.text_preview, None);
}

#[test]
fn csv_preview_shows_the_header_and_ten_rows() {
    let mut content = String::from("n,sq\n");
    for i in 1..=12 {
        content.push_str(&format!("{i},{}\n", i * i));
    }

    let record = parse_csv("squares.csv", &content, content.len() as u64).unwrap();

    assert_eq!(record.rows, Some(12));
    let preview = record.preview.unwrap();
    let lines: Vec<&str> = preview.lines().collect();
    assert_eq!(lines.len(), 11);
    assert_eq!(lines[0], "n,sq");
    assert_eq!(lines[1], "1,1");
    assert_eq!(lines[10], "10,100");
}

#[test]
fn csv_rows_may_differ_in_length_and_quote_their_fields() {
    let content = "a,b,c\n1\n\"x, y\",2,3,4\n";

    let record = parse_csv("ragged.csv", content, content.len() as u64).unwrap();

    assert_eq!(record.columns, Some(strings(&["a", "b", "c"])));
    assert_eq!(record.rows, Some(2));
    assert_eq!(record.preview.as_deref(), Some("a,b,c\n1\nx, y,2,3,4"));
}

#[test]
fn empty_csv_has_no_columns_and_no_rows() {
    let record = parse_csv("empty.csv", "", 0).unwrap();

    assert_eq!(record.columns, Some(vec![]));
    assert_eq!(record.rows, Some(0));
    assert_eq!(record.preview.as_deref(), Some(""));
    assert_eq!(record.detected_type, None);
}

#[test]
fn csv_record_skips_rows_that_could_not_be_read() {
    let rows = vec![Some(strings(&["1", "2"])), None, Some(strings(&["3", "4"]))];

    let record = csv_record("t.csv", 9, strings(&["a", "b"]), &rows);

    assert_eq!(record.rows, Some(3));
    assert_eq!(record.preview.as_deref(), Some("a,b\n1,2\n3,4"));
}

#[test]
fn long_csv_preview_is_cut() {
    let header = strings(&["column"]);
    let rows: Vec<Option<Vec<String>>> =
        (0..10).map(|_| Some(vec!["z".repeat(80)])).collect();

    let record = csv_record("wide.csv", 1, header, &rows);

    let preview = record.preview.unwrap();
    assert_eq!(preview.chars().count(), MAX_PREVIEW_CHARS + 3);
    assert!(preview.starts_with("column\nzzzz"));
    assert!(preview.ends_with("z..."));
}

#[test]
fn pdf_record_previews_the_first_text() {
    let parsed = PdfParse::Parsed { pages: 3, text: "Quarterly report".to_string() };
    let record = pdf_record("Q3 Report.pdf", 2048, parsed);

    assert_eq!(record.stored_filename, "q3-report.pdf");
    assert_eq!(record.relative_file_path, "context/q3-report.pdf");
    assert_eq!(record.pages, Some(3));
    assert_eq!(record.text_preview.as_deref(), Some("Quarterly report"));
    assert_eq!(record.rows, None);
    assert_eq!(record.columns, None);
    assert_eq!(record.preview, None);
    assert_eq!(record.detected_type, None);
    assert!(!record.is_lfs);
}

#[test]
fn pdf_record_says_why_there_is_no_text() {
    let scanned = pdf_record("s.pdf", 1, PdfParse::Parsed { pages: 1, text: String::new() });
    assert_eq!(scanned.pages, Some(1));
    assert_eq!(scanned.text_preview.as_deref(), Some("(Image-based PDF, no text extracted)"));

    let failed = pdf_record("f.pdf", 1, PdfParse::Failed);
    assert_eq!(failed.pages, None);
    assert_eq!(failed.text_preview.as_deref(), Some("(Failed to parse PDF)"));

    let crashed = pdf_record("c.pdf", 1, PdfParse::Crashed);
    assert_eq!(crashed.pages, None);
    assert_eq!(crashed.text_preview.as_deref(), Some("(Corrupted PDF)"));

    let long = pdf_record("l.pdf", 1, PdfParse::Parsed { pages: 9, text: "w".repeat(600) });
    assert_eq!(long.text_preview.unwrap(), format!("{}...", "w".repeat(500)));
}

#[test]
fn excel_record_reads_columns_from_the_first_row() {
    let sheet = Sheet {
        row_count: 3,
        leading_rows: vec![
            cells(&[Some("Product"), Some("Price"), None]),
            cells(&[Some("Pen"), Some("2"), Some("x")]),
            cells(&[None, Some("5"), None]),
        ],
    };

    let record = excel_record("Price List.xlsx", 20_000_000, &sheet);

    assert_eq!(record.file_type, "excel");
    assert_eq!(record.stored_filename, "price-list.xlsx");
    assert_eq!(record.columns, Some(strings(&["Product", "Price"])));
    assert_eq!(record.rows, Some(2));
    assert_eq!(record.detected_type.as_deref(), Some("product_data"));
    assert_eq!(record.preview.as_deref(), Some("Product,Price,\nPen,2,x\n,5,"));
    assert!(record.is_lfs);
}

#[test]
fn empty_sheet_has_no_columns() {
    let record = excel_record("e.xls", 1, &Sheet { row_count: 0, leading_rows: vec![] });

    assert_eq!(record.columns, Some(vec![]));
    assert_eq!(record.rows, Some(0));
    assert_eq!(record.preview.as_deref(), Some(""));
    assert_eq!(record.detected_type, None);
}

#[test]
fn excel_preview_shows_ten_rows() {
    let leading_rows: Vec<Vec<Option<String>>> =
        (0..12).map(|i| vec![Some(format!("r{i}"))]).collect();
    let record = excel_record("many.xlsx", 1, &Sheet { row_count: 40, leading_rows });

    assert_eq!(record.rows, Some(39));
    let preview = record.preview.unwrap();
    assert_eq!(preview.lines().count(), 10);
    assert!(preview.ends_with("r9"));
}

#[test]
fn spreadsheet_without_sheets_is_refused() {
    assert_eq!(first_sheet(&vec![]).unwrap_err(), "Excel file has no sheets");
    assert_eq!(first_sheet(&strings(&["Data", "Notes"])).unwrap(), "Data");
}
