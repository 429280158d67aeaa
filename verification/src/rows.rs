//! The row reader: turns raw CSV bytes into an ordered sequence of rows,
//! tolerating ragged rows and recording per-row parse failures.

use vstd::prelude::*;
use crate::sanitize::sanitize_row;
use crate::sanitize::sanitize_row_spec;

verus! {

/// One physical data row as the reader produced it: either its fields, or
/// the parser's error text where the row's syntax was malformed.
pub enum CsvRow {
    Fields(Vec<String>),
    Malformed(String),
}

impl View for CsvRow {
    type V = Result<Seq<Seq<char>>, Seq<char>>;

    open spec fn view(&self) -> Self::V {
        match self {
            CsvRow::Fields(f) => Ok(f.deep_view()),
            CsvRow::Malformed(m) => Err(m@),
        }
    }
}

impl DeepView for CsvRow {
    type V = Result<Seq<Seq<char>>, Seq<char>>;

    open spec fn deep_view(&self) -> Self::V {
        self.view()
    }
}

/// What the CSV reader yields for given input bytes: for each data row
/// after the header, either its trimmed fields or a parse-error text.  The
/// CSV grammar is the outside reader's; the result is a function of the
/// bytes alone, and contracts speak of it only through this name.
pub uninterp spec fn csv_rows_of(data: Seq<u8>) -> Seq<Result<Seq<Seq<char>>, Seq<char>>>;

/// Relies on `csv::ReaderBuilder` and `csv::Reader`: reading comma-
/// separated text from an in-memory buffer in flexible mode, with fields
/// trimmed and the header row consumed and discarded, is a deterministic
/// function of the bytes; a malformed row yields an error for that row
/// alone and reading continues with the next one.
#[verifier::external_body]
fn read_rows_raw(data: &[u8]) -> (rows: Vec<CsvRow>)
    ensures
        rows.deep_view() == csv_rows_of(data@),
{
    let rdr = csv::ReaderBuilder::new().flexible(true).trim(csv::Trim::All).from_reader(data);
    rdr.into_records().map(
        |rec| match rec {
            Ok(r) => CsvRow::Fields(r.iter().map(|f| f.to_string()).collect()),
            Err(e) => CsvRow::Malformed(e.to_string()),
        },
    ).collect()
}

/// Reads the data rows of a CSV document.  The header line is consumed and
/// discarded, never validated; rows may have any number of fields; every
/// field is trimmed; a malformed row is reported in place and does not
/// abort the rest.
pub fn read_csv_rows(data: &Vec<u8>) -> (rows: Vec<CsvRow>)
    ensures
        rows.deep_view() == csv_rows_of(data@),
{
    read_rows_raw(data.as_slice())
}

/// The cleaned price text of a row: what the price verdict handed to the
/// validator must be a parse of.  Empty for malformed rows, whose verdict
/// is never read.
pub open spec fn price_input_of(row: Result<Seq<Seq<char>>, Seq<char>>) -> Seq<char> {
    match row {
        Ok(fields) => sanitize_row_spec(fields).price_raw,
        Err(_) => Seq::empty(),
    }
}

/// The cleaned price text of every row, in order: the strings the caller
/// parses to produce the price verdicts for `validate_batch`.
pub fn price_inputs(rows: &Vec<CsvRow>) -> (v: Vec<String>)
    ensures
        v@.len() == rows@.len(),
        forall|i: int| 0 <= i < rows@.len() ==> v@[i]@ == price_input_of(rows.deep_view()[i]),
{
    let mut v: Vec<String> = Vec::new();
    let mut i: usize = 0;
    while i < rows.len()
        invariant
            0 <= i <= rows@.len(),
            v@.len() == i,
            forall|j: int| 0 <= j < i ==> v@[j]@ == price_input_of(rows.deep_view()[j]),
        decreases rows@.len() - i,
    {
        match &rows[i] {
            CsvRow::Fields(fields) => {
                let s = sanitize_row(fields);
                v.push(s.price_raw);
            },
            CsvRow::Malformed(_) => {
                v.push(String::new());
            },
        }
        i = i + 1;
    }
    v
}

} // verus!
