//! Per-row validation: error accumulation for column count, name and
//! price, and construction of the candidate for rows with no errors.

use vstd::prelude::*;
use vstd::string::*;
use crate::category::category_of;
use crate::category::classify_category;
use crate::models::CandidateView;
use crate::models::ErrorView;
use crate::models::ImportError;
use crate::models::PriceParse;
use crate::models::clone_string_vec;
use crate::models::ProductCandidate;
use crate::sanitize::sanitize_row;
use crate::sanitize::sanitize_row_spec;
use crate::text::str_eq_str;

verus! {

/// The sale flag a raw sale-flag text denotes: the strict boolean parse of
/// the text, with parse failure defaulting to `false` silently.
pub open spec fn sale_flag_of(s: Seq<char>) -> bool {
    s == "true"@
}

/// Decides `sale_flag_of` executably.
pub fn parse_sale_flag(s: &str) -> (b: bool)
    ensures
        b == sale_flag_of(s@),
{
    str_eq_str(s, "true")
}

/// The error text for a row with fewer than four columns.
pub open spec fn msg_columns() -> Seq<char> {
    "Invalid number of columns"@
}

/// The error text for an empty sanitized name.
pub open spec fn msg_name_required() -> Seq<char> {
    "Name is required"@
}

/// The error text for an empty price field.
pub open spec fn msg_price_required() -> Seq<char> {
    "Price is required"@
}

/// The error text for a price that parsed to a negative value.
pub open spec fn msg_price_negative(shown: Seq<char>) -> Seq<char> {
    "Invalid price: must be non-negative, got: '"@ + shown + "'"@
}

/// The error text for a price that did not parse.
pub open spec fn msg_price_format(original: Seq<char>, detail: Seq<char>) -> Seq<char> {
    "Invalid price format. Expected format: $X.XX, got: '"@ + original + "'. Parse error: "@
        + detail
}

/// The error text for a failed insertion.
pub open spec fn msg_db_error(detail: Seq<char>) -> Seq<char> {
    "Database error: "@ + detail
}

/// The error text for a row the reader could not parse.
pub open spec fn msg_parse_error(detail: Seq<char>) -> Seq<char> {
    "Failed to parse CSV record: "@ + detail
}

/// Builds the negative-price error text.
pub fn build_msg_price_negative(shown: &str) -> (m: String)
    ensures
        m@ == msg_price_negative(shown@),
{
    let mut m = "Invalid price: must be non-negative, got: '".to_owned();
    m.append(shown);
    m.append("'");
    proof {
        assert(m@ =~= msg_price_negative(shown@));
    }
    m
}

/// Builds the unparseable-price error text.
pub fn build_msg_price_format(original: &str, detail: &str) -> (m: String)
    ensures
        m@ == msg_price_format(original@, detail@),
{
    let mut m = "Invalid price format. Expected format: $X.XX, got: '".to_owned();
    m.append(original);
    m.append("'. Parse error: ");
    m.append(detail);
    proof {
        assert(m@ =~= msg_price_format(original@, detail@));
    }
    m
}

/// Builds the failed-insertion error text.
pub fn build_msg_db_error(detail: &str) -> (m: String)
    ensures
        m@ == msg_db_error(detail@),
{
    let mut m = "Database error: ".to_owned();
    m.append(detail);
    m
}

/// Builds the unparseable-row error text.
pub fn build_msg_parse_error(detail: &str) -> (m: String)
    ensures
        m@ == msg_parse_error(detail@),
{
    let mut m = "Failed to parse CSV record: ".to_owned();
    m.append(detail);
    m
}

/// The errors validation emits for one row, in their fixed order: column
/// count first, then name, then price.
pub open spec fn row_errors_spec(fields: Seq<Seq<char>>, verdict: PriceParse, line: u64) -> Seq<
    ErrorView,
> {
    let s = sanitize_row_spec(fields);
    let col_errs: Seq<ErrorView> = if fields.len() < 4 {
        seq![ErrorView { line, message: msg_columns(), data: Some(fields) }]
    } else {
        Seq::empty()
    };
    let name_errs: Seq<ErrorView> = if s.clean_name.len() == 0 {
        seq![ErrorView { line, message: msg_name_required(), data: Some(fields) }]
    } else {
        Seq::empty()
    };
    let price_errs: Seq<ErrorView> = if s.price_input.len() == 0 {
        seq![ErrorView { line, message: msg_price_required(), data: Some(fields) }]
    } else {
        match verdict {
            PriceParse::NonNegative(_) => Seq::empty(),
            PriceParse::Negative(shown) => seq![
                ErrorView { line, message: msg_price_negative(shown@), data: Some(fields) },
            ],
            PriceParse::Invalid(detail) => seq![
                ErrorView {
                    line,
                    message: msg_price_format(s.price_input, detail@),
                    data: Some(fields),
                },
            ],
        }
    };
    col_errs + name_errs + price_errs
}

/// Whether a row is eligible for insertion: four or more columns, a
/// non-empty sanitized name, a non-empty price field, and a price that
/// parsed to a non-negative value — exactly the rows with no errors.
pub open spec fn row_eligible_spec(fields: Seq<Seq<char>>, verdict: PriceParse) -> bool {
    let s = sanitize_row_spec(fields);
    fields.len() >= 4 && s.clean_name.len() > 0 && s.price_input.len() > 0
        && verdict is NonNegative
}

/// The candidate an eligible row produces; `None` for ineligible rows.
/// The candidate's name is the sanitized name, one space, and the id
/// suffix — including a trailing space when the suffix is empty.
pub open spec fn row_candidate_spec(fields: Seq<Seq<char>>, verdict: PriceParse) -> Option<
    CandidateView,
> {
    let s = sanitize_row_spec(fields);
    if row_eligible_spec(fields, verdict) {
        Some(
            CandidateView {
                name: s.clean_name + seq![' '] + s.id_suffix,
                price_bits: verdict->NonNegative_0,
                category: category_of(s.category_raw),
                has_active_sale: sale_flag_of(s.sale_flag_raw),
            },
        )
    } else {
        None
    }
}

/// A row produces a candidate exactly when it produced no errors.
pub proof fn lemma_candidate_iff_no_errors(fields: Seq<Seq<char>>, verdict: PriceParse, line: u64)
    ensures
        row_candidate_spec(fields, verdict) is Some <==> row_errors_spec(fields, verdict, line).len()
            == 0,
{
}

/// For every eligible row the candidate's name is exactly the sanitized
/// name, a space, and the sanitized id suffix — including the trailing
/// space when the id suffix is empty.
pub proof fn lemma_candidate_name(fields: Seq<Seq<char>>, verdict: PriceParse)
    requires
        row_candidate_spec(fields, verdict) is Some,
    ensures
        row_candidate_spec(fields, verdict)->Some_0.name == sanitize_row_spec(fields).clean_name
            + seq![' '] + sanitize_row_spec(fields).id_suffix,
{
}

/// A row with fewer than four columns always carries the column-count
/// error, first, whatever the other checks found, and never yields a
/// candidate.
pub proof fn lemma_short_row_has_column_error(
    fields: Seq<Seq<char>>,
    verdict: PriceParse,
    line: u64,
)
    requires
        fields.len() < 4,
    ensures
        row_errors_spec(fields, verdict, line).len() > 0,
        row_errors_spec(fields, verdict, line)[0] == (ErrorView {
            line,
            message: msg_columns(),
            data: Some(fields),
        }),
        row_candidate_spec(fields, verdict) is None,
{
}

/// The outcome of validating one row.
pub struct RowValidation {
    pub candidate: Option<ProductCandidate>,
    pub errors: Vec<ImportError>,
}

/// Validates one row against the price verdict for its cleaned price.
/// The errors come out in their fixed order (column count, name, price);
/// the candidate is produced exactly when there are none.
pub fn validate_row(line: u64, fields: &Vec<String>, verdict: &PriceParse) -> (out: RowValidation)
    ensures
        out.errors.deep_view() == row_errors_spec(fields.deep_view(), *verdict, line),
        out.candidate.deep_view() == row_candidate_spec(fields.deep_view(), *verdict),
{
    let ghost fv = fields.deep_view();
    let s = sanitize_row(fields);
    let mut errors: Vec<ImportError> = Vec::new();
    let short_row = fields.len() < 4;
    if short_row {
        let msg = "Invalid number of columns".to_owned();
        errors.push(ImportError { line, message: msg, data: Some(clone_string_vec(fields)) });
    }
    let name_missing = s.clean_name.as_str().is_empty();
    if name_missing {
        let msg = "Name is required".to_owned();
        errors.push(ImportError { line, message: msg, data: Some(clone_string_vec(fields)) });
    }
    let price_missing = s.price_input.as_str().is_empty();
    let mut price_ok: Option<u64> = None;
    if price_missing {
        let msg = "Price is required".to_owned();
        errors.push(ImportError { line, message: msg, data: Some(clone_string_vec(fields)) });
    } else {
        match verdict {
            PriceParse::NonNegative(bits) => {
                price_ok = Some(*bits);
            },
            PriceParse::Negative(shown) => {
                let msg = build_msg_price_negative(shown.as_str());
                errors.push(ImportError { line, message: msg, data: Some(clone_string_vec(fields)) });
            },
            PriceParse::Invalid(detail) => {
                let msg = build_msg_price_format(s.price_input.as_str(), detail.as_str());
                errors.push(ImportError { line, message: msg, data: Some(clone_string_vec(fields)) });
            },
        }
    }
    proof {
        assert(errors.deep_view() =~= row_errors_spec(fv, *verdict, line));
    }
    let candidate: Option<ProductCandidate> = if !short_row && !name_missing && !price_missing
        && price_ok.is_some() {
        let bits = price_ok.unwrap();
        let mut name = s.clean_name.clone();
        name.append(" ");
        name.append(s.id_suffix.as_str());
        proof {
            reveal_strlit(" ");
            assert(" "@ =~= seq![' ']);
        }
        Some(
            ProductCandidate {
                name,
                price_bits: bits,
                category: classify_category(s.category_raw.as_str()),
                has_active_sale: parse_sale_flag(s.sale_flag_raw.as_str()),
            },
        )
    } else {
        None
    };
    RowValidation { candidate, errors }
}

} // verus!
