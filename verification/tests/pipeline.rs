//! End-to-end exercises of the import pipeline: CSV bytes in, outcome out,
//! with the price parse and the insert results supplied the way a host
//! application supplies them.

use product_catalog::category::Category;
use product_catalog::models::{ImportError, InsertResult, PriceParse, ProductCandidate};
use product_catalog::outcome::{
    aggregate_response, assemble_outcome, collect_candidates, validate_batch, ImportOutcome,
    ImportReport, RowOutcome,
};
use product_catalog::rows::{price_inputs, read_csv_rows, CsvRow};

fn parse_price(cleaned: &str) -> PriceParse {
    match cleaned.parse::<f64>() {
        Ok(p) if p >= 0.0 => PriceParse::NonNegative(p.to_bits()),
        Ok(p) => PriceParse::Negative(format!("{}", p)),
        Err(e) => PriceParse::Invalid(format!("{}", e)),
    }
}

fn run_validation(data: &[u8]) -> (Vec<RowOutcome>, Vec<ProductCandidate>) {
    let rows: Vec<CsvRow> = read_csv_rows(&data.to_vec());
    let inputs = price_inputs(&rows);
    let verdicts: Vec<PriceParse> = inputs.iter().map(|s| parse_price(s.as_str())).collect();
    let out = validate_batch(&rows, &verdicts);
    let cands = collect_candidates(&out);
    (out, cands)
}

fn all_errors(out: &[RowOutcome]) -> Vec<(u64, String)> {
    let mut v = Vec::new();
    for row in out {
        for e in &row.errors {
            v.push((e.line, e.message.clone()));
        }
    }
    v
}

#[test]
fn widget_row_yields_one_candidate_and_no_errors() {
    let data = b"name,price,category,sale\nWidget #42,$19.99,electronics,true\n";
    let (out, cands) = run_validation(data);
    assert_eq!(out.len(), 1);
    assert!(all_errors(&out).is_empty());
    assert_eq!(cands.len(), 1);
    assert_eq!(cands[0].name, "Widget #42");
    assert_eq!(cands[0].price_bits, 19.99f64.to_bits());
    assert!(matches!(cands[0].category, Category::Electronics));
    assert!(cands[0].has_active_sale);
}

#[test]
fn empty_fields_report_name_and_price_required() {
    let data = b"name,price,category,sale\n,,,\n";
    let (out, cands) = run_validation(data);
    assert_eq!(cands.len(), 0, "no insertion may be attempted");
    let errors = all_errors(&out);
    let messages: Vec<&str> = errors.iter().map(|(_, m)| m.as_str()).collect();
    assert!(messages.contains(&"Name is required"));
    assert!(messages.contains(&"Price is required"));
    assert!(errors.iter().all(|(line, _)| *line == 2));
}

#[test]
fn unparseable_price_reports_format_error_and_category_falls_back() {
    let data = b"name,price,category,sale\nGadget,abc,toys,false\n";
    let (out, cands) = run_validation(data);
    assert_eq!(cands.len(), 0);
    let errors = all_errors(&out);
    assert_eq!(errors.len(), 1, "the unrecognized category is not an error");
    let (line, message) = &errors[0];
    assert_eq!(*line, 2);
    assert!(message.starts_with("Invalid price format. Expected format: $X.XX, got: 'abc'. Parse error: "));
    // The category text resolves to Other, with no error recorded for it.
    match &read_csv_rows(&data.to_vec())[0] {
        CsvRow::Fields(fields) => {
            let s = product_catalog::sanitize::sanitize_row(fields);
            let c = product_catalog::category::classify_category(s.category_raw.as_str());
            assert!(matches!(c, Category::Other));
        }
        CsvRow::Malformed(_) => panic!("row must parse"),
    }
}

#[test]
fn ten_rows_two_invalid_one_insert_failure() {
    let mut text = String::from("name,price,category,sale\n");
    // 8 valid rows and 2 invalid ones (an empty name and a bad price).
    text.push_str("A,$1.00,food,true\n");
    text.push_str("B,$2.00,books,false\n");
    text.push_str(",$3.00,food,true\n"); // invalid: name missing
    text.push_str("C,$4.00,clothing,true\n");
    text.push_str("D,$5.00,electronics,false\n");
    text.push_str("E,bad,food,true\n"); // invalid: price format
    text.push_str("F,$6.00,food,true\n");
    text.push_str("G,$7.00,toys,false\n");
    text.push_str("H,$8.00,books,true\n");
    text.push_str("I,$9.00,food,false\n");
    let (out, cands) = run_validation(text.as_bytes());
    assert_eq!(out.len(), 10);
    assert_eq!(cands.len(), 8);
    // The fifth eligible candidate fails at insertion.
    let results: Vec<InsertResult> = (0..8)
        .map(|j| {
            if j == 4 {
                InsertResult::Failed(String::from("storage unavailable"))
            } else {
                InsertResult::Inserted
            }
        })
        .collect();
    let outcome = assemble_outcome(&out, &results);
    assert_eq!(outcome.success_count, 7);
    assert_eq!(outcome.errors.len(), 3);
    let failed_cand_line = outcome
        .errors
        .iter()
        .find(|e| e.message.starts_with("Database error: storage unavailable"))
        .expect("insert failure must be reported")
        .line;
    // The fifth candidate comes from data row "F" (line 8).
    assert_eq!(failed_cand_line, 8);
    // Errors stay in encounter order: line 4 (name), line 7 (price), line 8.
    let lines: Vec<u64> = outcome.errors.iter().map(|e| e.line).collect();
    assert_eq!(lines, vec![4, 7, 8]);
    match aggregate_response(outcome) {
        ImportReport::Failure { errors } => assert_eq!(errors.len(), 3),
        ImportReport::Success { .. } => panic!("errors must produce a failure report"),
    }
}

#[test]
fn all_success_reports_summary_message() {
    let data = b"name,price,category,sale\nWidget,$1.50,food,true\nGizmo #7,$2,books,false\n";
    let (out, cands) = run_validation(data);
    assert_eq!(cands.len(), 2);
    let results = vec![InsertResult::Inserted, InsertResult::Inserted];
    let outcome = assemble_outcome(&out, &results);
    assert_eq!(outcome.success_count, 2);
    match aggregate_response(outcome) {
        ImportReport::Success { message } => {
            assert_eq!(message, "Successfully imported 2 products");
        }
        ImportReport::Failure { .. } => panic!("no errors were expected"),
    }
}

#[test]
fn header_only_input_imports_zero_products() {
    let data = b"name,price,category,sale\n";
    let (out, cands) = run_validation(data);
    assert!(out.is_empty());
    assert!(cands.is_empty());
    let no_results: Vec<InsertResult> = Vec::new();
    let outcome = assemble_outcome(&out, &no_results);
    assert_eq!(outcome.success_count, 0);
    assert!(outcome.errors.is_empty());
    match aggregate_response(outcome) {
        ImportReport::Success { message } => {
            assert_eq!(message, "Successfully imported 0 products");
        }
        ImportReport::Failure { .. } => panic!("no errors were expected"),
    }
}

#[test]
fn line_numbers_start_at_two_and_step_by_one() {
    // A malformed row (invalid UTF-8) keeps its line number, and later rows
    // keep counting, however many errors each row produced.
    let mut data: Vec<u8> = Vec::new();
    data.extend_from_slice(b"name,price,category,sale\n");
    data.extend_from_slice(b",bad,food,true\n"); // line 2: two errors
    data.extend_from_slice(b"\xff\xfe,1,2,3\n"); // line 3: parse error
    data.extend_from_slice(b",,,\n"); // line 4: two errors
    let rows = read_csv_rows(&data);
    let inputs = price_inputs(&rows);
    let verdicts: Vec<PriceParse> = inputs.iter().map(|s| parse_price(s.as_str())).collect();
    let out = validate_batch(&rows, &verdicts);
    assert_eq!(out.len(), 3);
    assert_eq!(out[0].line, 2);
    assert_eq!(out[1].line, 3);
    assert_eq!(out[2].line, 4);
    assert_eq!(out[0].errors.len(), 2);
    assert_eq!(out[1].errors.len(), 1);
    assert!(out[1].errors[0]
        .message
        .starts_with("Failed to parse CSV record: "));
    assert!(out[1].errors[0].data.is_none());
    assert_eq!(out[2].errors.len(), 2);
    for row in &out {
        for e in &row.errors {
            assert_eq!(e.line, row.line);
        }
    }
}

#[test]
fn negative_price_reports_the_parsed_value() {
    let data = b"name,price,category,sale\nWidget,-5,food,false\n";
    let (out, cands) = run_validation(data);
    assert_eq!(cands.len(), 0);
    let errors = all_errors(&out);
    assert_eq!(errors.len(), 1);
    assert_eq!(errors[0].1, "Invalid price: must be non-negative, got: '-5'");
}

#[test]
fn short_row_keeps_column_error_first() {
    let data = b"name,price,category,sale\nWidget,$1\n";
    let (out, cands) = run_validation(data);
    assert_eq!(cands.len(), 0, "a short row is never inserted");
    let errors = &out[0].errors;
    assert_eq!(errors[0].message, "Invalid number of columns");
    let data_echo = errors[0].data.as_ref().expect("column error echoes the row");
    assert_eq!(data_echo, &vec![String::from("Widget"), String::from("$1")]);
}

#[test]
fn dollar_only_price_reports_empty_parse() {
    let data = b"name,price,category,sale\nWidget,$,food,true\n";
    let (out, cands) = run_validation(data);
    assert_eq!(cands.len(), 0);
    let errors = all_errors(&out);
    assert_eq!(errors.len(), 1);
    assert!(errors[0].1.starts_with("Invalid price format. Expected format: $X.XX, got: '$'. Parse error: "));
}

#[test]
fn quoted_fields_and_extra_columns_are_tolerated() {
    // A comma inside quotes stays in the field; a fifth column is ignored
    // by validation (only the first four are read) and is no error.
    let data = b"name,price,category,sale\n\"Widget, deluxe #9\",$3.50,books,true,extra\n";
    let (out, cands) = run_validation(data);
    assert!(all_errors(&out).is_empty());
    assert_eq!(cands.len(), 1);
    assert_eq!(cands[0].name, "Widget deluxe #9");
    assert!(matches!(cands[0].category, Category::Books));
}

#[test]
fn summary_message_renders_multi_digit_counts() {
    let outcome = ImportOutcome { success_count: 12045, errors: Vec::new() };
    match aggregate_response(outcome) {
        ImportReport::Success { message } => {
            assert_eq!(message, "Successfully imported 12045 products");
        }
        ImportReport::Failure { .. } => panic!("no errors were expected"),
    }
}

#[test]
fn insert_failure_echoes_the_row_fields() {
    let data = b"name,price,category,sale\nWidget,$1,food,true\n";
    let (out, cands) = run_validation(data);
    assert_eq!(cands.len(), 1);
    let results = vec![InsertResult::Failed(String::from("duplicate key"))];
    let outcome: ImportOutcome = assemble_outcome(&out, &results);
    assert_eq!(outcome.success_count, 0);
    assert_eq!(outcome.errors.len(), 1);
    let e: &ImportError = &outcome.errors[0];
    assert_eq!(e.message, "Database error: duplicate key");
    assert_eq!(e.line, 2);
    assert_eq!(
        e.data.as_ref().expect("the failed row is echoed"),
        &vec![
            String::from("Widget"),
            String::from("$1"),
            String::from("food"),
            String::from("true"),
        ]
    );
}
