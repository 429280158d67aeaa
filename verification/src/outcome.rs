//! The batch stages around per-row validation: judging every row at its
//! line number, committing eligible candidates one by one, and aggregating
//! the outcome.

use vstd::prelude::*;
use vstd::string::*;
use crate::decimal::dec_rep;
use crate::decimal::format_u64;
use crate::models::CandidateView;
use crate::models::ErrorView;
use crate::models::ImportError;
use crate::models::InsertResult;
use crate::models::PriceParse;
use crate::models::ProductCandidate;
use crate::models::clone_import_error;
use crate::models::clone_string_vec;
use crate::rows::CsvRow;
use crate::validate::RowValidation;
use crate::validate::build_msg_db_error;
use crate::validate::build_msg_parse_error;
use crate::validate::msg_db_error;
use crate::validate::msg_parse_error;
use crate::validate::row_candidate_spec;
use crate::validate::row_errors_spec;
use crate::validate::validate_row;

verus! {

/// Everything validation decided about one physical row.
pub struct RowOutcome {
    /// The data line the row stood on (the first data row is line 2).
    pub line: u64,
    /// The row's raw fields (empty for rows the reader could not parse).
    pub fields: Vec<String>,
    /// The row's validation errors, in their fixed order.
    pub errors: Vec<ImportError>,
    /// The candidate to insert; present exactly when `errors` is empty.
    pub candidate: Option<ProductCandidate>,
}

/// The mathematical view of a `RowOutcome`.
pub ghost struct RowOutcomeView {
    pub line: u64,
    pub fields: Seq<Seq<char>>,
    pub errors: Seq<ErrorView>,
    pub candidate: Option<CandidateView>,
}

impl View for RowOutcome {
    type V = RowOutcomeView;

    open spec fn view(&self) -> RowOutcomeView {
        RowOutcomeView {
            line: self.line,
            fields: self.fields.deep_view(),
            errors: self.errors.deep_view(),
            candidate: self.candidate.deep_view(),
        }
    }
}

impl DeepView for RowOutcome {
    type V = RowOutcomeView;

    open spec fn deep_view(&self) -> RowOutcomeView {
        self.view()
    }
}

/// What judging one row at a given line yields: for a parsed row, its
/// validation errors and possible candidate; for a malformed row, the
/// single parse error, with no data echo.
pub open spec fn row_outcome_spec(
    row: Result<Seq<Seq<char>>, Seq<char>>,
    verdict: PriceParse,
    line: u64,
) -> RowOutcomeView {
    match row {
        Ok(fields) => RowOutcomeView {
            line,
            fields,
            errors: row_errors_spec(fields, verdict, line),
            candidate: row_candidate_spec(fields, verdict),
        },
        Err(detail) => RowOutcomeView {
            line,
            fields: Seq::empty(),
            errors: seq![ErrorView { line, message: msg_parse_error(detail), data: None }],
            candidate: None,
        },
    }
}

/// Row line numbers start at 2 and increase by exactly one per physical
/// data row: the `i`-th row is judged at line `2 + i`, and every error the
/// row emits carries that line, however many errors it produced.
pub proof fn lemma_row_line_numbers(
    row: Result<Seq<Seq<char>>, Seq<char>>,
    verdict: PriceParse,
    i: int,
)
    requires
        0 <= i,
        i + 2 <= u64::MAX,
    ensures
        row_outcome_spec(row, verdict, (2 + i) as u64).line == 2 + i,
        forall|k: int|
            0 <= k < row_outcome_spec(row, verdict, (2 + i) as u64).errors.len()
                ==> #[trigger] row_outcome_spec(row, verdict, (2 + i) as u64).errors[k].line == 2
                + i,
{
    let line = (2 + i) as u64;
    let out = row_outcome_spec(row, verdict, line);
    assert forall|k: int| 0 <= k < out.errors.len() implies out.errors[k].line == 2 + i by {
        match row {
            Ok(fields) => {
                assert(out.errors == row_errors_spec(fields, verdict, line));
            },
            Err(detail) => {
                assert(out.errors[k] == (ErrorView {
                    line,
                    message: msg_parse_error(detail),
                    data: None,
                }));
            },
        }
    }
}

/// Judges every row of the batch: the `i`-th row at line `2 + i`, against
/// the `i`-th price verdict.
pub fn validate_batch(rows: &Vec<CsvRow>, verdicts: &Vec<PriceParse>) -> (out: Vec<RowOutcome>)
    requires
        verdicts@.len() == rows@.len(),
        rows@.len() + 2 <= u64::MAX,
    ensures
        out.deep_view().len() == rows@.len(),
        forall|i: int|
            0 <= i < rows@.len() ==> out.deep_view()[i] == row_outcome_spec(
                rows.deep_view()[i],
                verdicts@[i],
                (2 + i) as u64,
            ),
{
    let mut out: Vec<RowOutcome> = Vec::new();
    let mut i: usize = 0;
    while i < rows.len()
        invariant
            0 <= i <= rows@.len(),
            verdicts@.len() == rows@.len(),
            rows@.len() + 2 <= u64::MAX,
            out.deep_view().len() == i,
            forall|j: int|
                0 <= j < i ==> out.deep_view()[j] == row_outcome_spec(
                    rows.deep_view()[j],
                    verdicts@[j],
                    (2 + j) as u64,
                ),
        decreases rows@.len() - i,
    {
        let line: u64 = (i as u64) + 2;
        let ghost prev = out.deep_view();
        match &rows[i] {
            CsvRow::Fields(fields) => {
                let rv: RowValidation = validate_row(line, fields, &verdicts[i]);
                let echo = clone_string_vec(fields);
                out.push(
                    RowOutcome { line, fields: echo, errors: rv.errors, candidate: rv.candidate },
                );
            },
            CsvRow::Malformed(detail) => {
                let msg = build_msg_parse_error(detail.as_str());
                let mut errs: Vec<ImportError> = Vec::new();
                errs.push(ImportError { line, message: msg, data: None });
                proof {
                    assert(errs.deep_view() =~= seq![
                        ErrorView { line, message: msg_parse_error(detail@), data: None },
                    ]);
                }
                let empty_fields: Vec<String> = Vec::new();
                proof {
                    assert(empty_fields.deep_view() =~= Seq::<Seq<char>>::empty());
                }
                out.push(
                    RowOutcome { line, fields: empty_fields, errors: errs, candidate: None },
                );
            },
        }
        proof {
            assert(out.deep_view() =~= prev.push(out@[i as int]@));
            assert(out.deep_view()[i as int] == row_outcome_spec(
                rows.deep_view()[i as int],
                verdicts@[i as int],
                (2 + i) as u64,
            ));
        }
        i = i + 1;
    }
    out
}

/// The candidates of the judged rows, in row order.
pub open spec fn candidates_of(rows: Seq<RowOutcomeView>) -> Seq<CandidateView>
    decreases rows.len(),
{
    if rows.len() == 0 {
        Seq::empty()
    } else {
        (match rows.first().candidate {
            Some(c) => seq![c],
            None => Seq::empty(),
        }) + candidates_of(rows.drop_first())
    }
}

/// How many judged rows carry a candidate.
pub open spec fn candidate_count(rows: Seq<RowOutcomeView>) -> int
    decreases rows.len(),
{
    candidates_of(rows).len() as int
}

/// Collects the candidates of the judged rows, in row order: the exact
/// list the committer inserts, one call per candidate.
pub fn collect_candidates(rows_out: &Vec<RowOutcome>) -> (cands: Vec<ProductCandidate>)
    ensures
        cands.deep_view() == candidates_of(rows_out.deep_view()),
{
    let ghost rv = rows_out.deep_view();
    let mut cands: Vec<ProductCandidate> = Vec::new();
    let mut i: usize = 0;
    proof {
        assert(rv.skip(0) =~= rv);
    }
    while i < rows_out.len()
        invariant
            0 <= i <= rv.len(),
            rv.len() == rows_out@.len(),
            rv == rows_out.deep_view(),
            candidates_of(rv) =~= cands.deep_view() + candidates_of(rv.skip(i as int)),
        decreases rv.len() - i,
    {
        let ghost prev = cands.deep_view();
        proof {
            assert(rv.skip(i as int).first() == rv[i as int]);
            assert(rv.skip(i as int).drop_first() =~= rv.skip(i as int + 1));
        }
        match &rows_out[i].candidate {
            Some(c) => {
                let copy = ProductCandidate {
                    name: c.name.clone(),
                    price_bits: c.price_bits,
                    category: c.category,
                    has_active_sale: c.has_active_sale,
                };
                cands.push(copy);
                proof {
                    assert(cands.deep_view() =~= prev.push(c@));
                }
            },
            None => {},
        }
        proof {
            assert(candidates_of(rv) =~= cands.deep_view() + candidates_of(rv.skip(i as int + 1)));
        }
        i = i + 1;
    }
    proof {
        assert(candidates_of(rv.skip(rv.len() as int)) =~= Seq::<CandidateView>::empty());
        assert(cands.deep_view() =~= candidates_of(rv));
    }
    cands
}

/// The import outcome: how many rows were committed, and every error in
/// encounter order.
pub struct ImportOutcome {
    pub success_count: u64,
    pub errors: Vec<ImportError>,
}

/// The mathematical view of an `ImportOutcome`.
pub ghost struct OutcomeView {
    pub success_count: int,
    pub errors: Seq<ErrorView>,
}

impl View for ImportOutcome {
    type V = OutcomeView;

    open spec fn view(&self) -> OutcomeView {
        OutcomeView { success_count: self.success_count as int, errors: self.errors.deep_view() }
    }
}

/// Folding the insert results into the judged rows: each row contributes
/// its validation errors; a row whose candidate failed to insert
/// contributes one database error right after them; a row whose candidate
/// was inserted raises the success count.  The `j`-th insert result
/// answers for the `j`-th candidate in row order.
pub open spec fn assemble_spec(rows: Seq<RowOutcomeView>, results: Seq<InsertResult>) -> OutcomeView
    decreases rows.len(),
{
    if rows.len() == 0 {
        OutcomeView { success_count: 0, errors: Seq::empty() }
    } else {
        let r0 = rows.first();
        if r0.candidate is Some && results.len() > 0 {
            let rest = assemble_spec(rows.drop_first(), results.drop_first());
            match results.first() {
                InsertResult::Inserted => OutcomeView {
                    success_count: rest.success_count + 1,
                    errors: r0.errors + rest.errors,
                },
                InsertResult::Failed(d) => OutcomeView {
                    success_count: rest.success_count,
                    errors: r0.errors + seq![
                        ErrorView { line: r0.line, message: msg_db_error(d@), data: Some(r0.fields) },
                    ] + rest.errors,
                },
            }
        } else {
            let rest = assemble_spec(rows.drop_first(), results);
            OutcomeView { success_count: rest.success_count, errors: r0.errors + rest.errors }
        }
    }
}

/// Errors keep row encounter order: the assembled list is the first row's
/// validation errors, then its insertion error if its candidate failed,
/// then everything the remaining rows contribute, in the same fashion.
pub proof fn lemma_errors_follow_rows(rows: Seq<RowOutcomeView>, results: Seq<InsertResult>)
    requires
        rows.len() > 0,
        results.len() == candidate_count(rows),
    ensures
        ({
            let r0 = rows.first();
            let db_block: Seq<ErrorView> = if r0.candidate is Some {
                match results.first() {
                    InsertResult::Inserted => Seq::empty(),
                    InsertResult::Failed(d) => seq![
                        ErrorView { line: r0.line, message: msg_db_error(d@), data: Some(r0.fields) },
                    ],
                }
            } else {
                Seq::empty()
            };
            let rest_results = if r0.candidate is Some {
                results.drop_first()
            } else {
                results
            };
            assemble_spec(rows, results).errors == r0.errors + db_block + assemble_spec(
                rows.drop_first(),
                rest_results,
            ).errors
        }),
{
    let r0 = rows.first();
    if r0.candidate is Some {
        assert(candidate_count(rows) == 1 + candidate_count(rows.drop_first()));
        assert(results.len() > 0);
        match results.first() {
            InsertResult::Inserted => {
                assert(assemble_spec(rows, results).errors =~= r0.errors + Seq::<
                    ErrorView,
                >::empty() + assemble_spec(rows.drop_first(), results.drop_first()).errors);
            },
            InsertResult::Failed(d) => {},
        }
    } else {
        assert(assemble_spec(rows, results).errors =~= r0.errors + Seq::<ErrorView>::empty()
            + assemble_spec(rows.drop_first(), results).errors);
    }
}

/// Appends clones of every error of `src` to `dst`.
fn append_errors(dst: &mut Vec<ImportError>, src: &Vec<ImportError>)
    ensures
        final (dst).deep_view() == old(dst).deep_view() + src.deep_view(),
{
    let mut i: usize = 0;
    while i < src.len()
        invariant
            0 <= i <= src@.len(),
            dst.deep_view() =~= old(dst).deep_view() + src.deep_view().take(i as int),
        decreases src@.len() - i,
    {
        let ghost prev = dst.deep_view();
        dst.push(clone_import_error(&src[i]));
        proof {
            assert(dst.deep_view() =~= prev.push(src.deep_view()[i as int]));
        }
        i = i + 1;
    }
    proof {
        assert(src.deep_view().take(src@.len() as int) =~= src.deep_view());
        assert(dst.deep_view() =~= old(dst).deep_view() + src.deep_view());
    }
}

/// Folds the insert results into the judged rows.  The committer must have
/// produced exactly one result per candidate, in row order.
pub fn assemble_outcome(rows_out: &Vec<RowOutcome>, results: &Vec<InsertResult>) -> (o:
    ImportOutcome)
    requires
        results@.len() == candidate_count(rows_out.deep_view()),
    ensures
        o@ == assemble_spec(rows_out.deep_view(), results@),
{
    let ghost rv = rows_out.deep_view();
    let ghost full = assemble_spec(rv, results@);
    let total_results: usize = results.len();
    let mut errors: Vec<ImportError> = Vec::new();
    let mut success: u64 = 0;
    let mut j: usize = 0;
    let mut i: usize = 0;
    proof {
        assert(rv.skip(0) =~= rv);
        assert(results@.skip(0) =~= results@);
    }
    while i < rows_out.len()
        invariant
            0 <= i <= rv.len(),
            0 <= j <= results@.len(),
            rv.len() == rows_out@.len(),
            rv == rows_out.deep_view(),
            results@.len() == total_results as int,
            success <= j,
            results@.len() - j == candidate_count(rv.skip(i as int)),
            full == assemble_spec(rv, results@),
            full.success_count == success + assemble_spec(
                rv.skip(i as int),
                results@.skip(j as int),
            ).success_count,
            full.errors =~= errors.deep_view() + assemble_spec(
                rv.skip(i as int),
                results@.skip(j as int),
            ).errors,
        decreases rv.len() - i,
    {
        let ghost i0 = i as int;
        let ghost j0 = j as int;
        let ghost suffix = rv.skip(i0);
        let ghost res_suffix = results@.skip(j0);
        proof {
            assert(suffix.first() == rv[i0]);
            assert(suffix.drop_first() =~= rv.skip(i0 + 1));
        }
        let row = &rows_out[i];
        append_errors(&mut errors, &row.errors);
        if row.candidate.is_some() {
            proof {
                assert(candidate_count(suffix) >= 1);
                assert(res_suffix.len() > 0);
                assert(res_suffix.first() == results@[j0]);
                assert(res_suffix.drop_first() =~= results@.skip(j0 + 1));
            }
            match &results[j] {
                InsertResult::Inserted => {
                    success = success + 1;
                },
                InsertResult::Failed(d) => {
                    let msg = build_msg_db_error(d.as_str());
                    let ghost prev = errors.deep_view();
                    errors.push(
                        ImportError {
                            line: row.line,
                            message: msg,
                            data: Some(clone_string_vec(&row.fields)),
                        },
                    );
                    proof {
                        assert(errors.deep_view() =~= prev.push(
                            ErrorView {
                                line: rv[i0].line,
                                message: msg_db_error(results@[j0]->Failed_0@),
                                data: Some(rv[i0].fields),
                            },
                        ));
                    }
                },
            }
            j = j + 1;
        } else {
            proof {
                assert(candidates_of(suffix) =~= candidates_of(suffix.drop_first()));
            }
        }
        proof {
            assert(full.success_count == success + assemble_spec(
                rv.skip(i0 + 1),
                results@.skip(j as int),
            ).success_count);
            assert(full.errors =~= errors.deep_view() + assemble_spec(
                rv.skip(i0 + 1),
                results@.skip(j as int),
            ).errors);
        }
        i = i + 1;
    }
    proof {
        assert(rv.skip(rv.len() as int) =~= Seq::<RowOutcomeView>::empty());
        assert(results@.skip(results@.len() as int) =~= Seq::<InsertResult>::empty());
        assert(full.errors =~= errors.deep_view());
    }
    ImportOutcome { success_count: success, errors }
}

/// How many insert results report success.
pub open spec fn inserted_count(results: Seq<InsertResult>) -> int
    decreases results.len(),
{
    if results.len() == 0 {
        0
    } else {
        (if results.first() is Inserted {
            1int
        } else {
            0int
        }) + inserted_count(results.drop_first())
    }
}

/// The outcome invariant: the success count is exactly the number of
/// successful insertions, and the error list is empty exactly when no row
/// produced a validation error and no insertion failed.
pub proof fn lemma_outcome_invariant(rows: Seq<RowOutcomeView>, results: Seq<InsertResult>)
    requires
        results.len() == candidate_count(rows),
    ensures
        assemble_spec(rows, results).success_count == inserted_count(results),
        assemble_spec(rows, results).errors.len() == 0 <==> (forall|i: int|
            0 <= i < rows.len() ==> #[trigger] rows[i].errors.len() == 0) && (forall|k: int|
            0 <= k < results.len() ==> #[trigger] results[k] is Inserted),
    decreases rows.len(),
{
    if rows.len() == 0 {
        assert(inserted_count(results) == 0);
    } else {
        let r0 = rows.first();
        let rest_rows = rows.drop_first();
        if r0.candidate is Some {
            assert(candidate_count(rows) == 1 + candidate_count(rest_rows));
            assert(results.len() > 0);
            lemma_outcome_invariant(rest_rows, results.drop_first());
            assert(forall|i: int|
                1 <= i < rows.len() ==> #[trigger] rows[i].errors.len() == rest_rows[i - 1].errors.len());
            assert(forall|k: int|
                1 <= k < results.len() ==> #[trigger] results[k] == results.drop_first()[k - 1]);
        } else {
            assert(candidate_count(rows) == candidate_count(rest_rows));
            lemma_outcome_invariant(rest_rows, results);
            assert(forall|i: int|
                1 <= i < rows.len() ==> #[trigger] rows[i].errors.len() == rest_rows[i - 1].errors.len());
        }
    }
}

/// The all-success summary text.
pub open spec fn success_message_spec(n: int) -> Seq<char> {
    "Successfully imported "@ + dec_rep(n) + " products"@
}

/// Builds the all-success summary text.
pub fn build_success_message(n: u64) -> (m: String)
    ensures
        m@ == success_message_spec(n as int),
{
    let mut m = "Successfully imported ".to_owned();
    let digits = format_u64(n);
    m.append(digits.as_str());
    m.append(" products");
    proof {
        assert(m@ =~= success_message_spec(n as int));
    }
    m
}

/// The shape of the response: a bare summary message when every row was
/// imported without any error, otherwise the full ordered error list, even
/// when some rows were committed.
pub enum ImportReport {
    Success { message: String },
    Failure { errors: Vec<ImportError> },
}

/// Decides the response shape from the outcome.
pub fn aggregate_response(outcome: ImportOutcome) -> (r: ImportReport)
    ensures
        outcome.errors@.len() == 0 ==> (r matches ImportReport::Success { message } && message@
            == success_message_spec(outcome.success_count as int)),
        outcome.errors@.len() > 0 ==> (r matches ImportReport::Failure { errors } && errors
            == outcome.errors),
{
    if outcome.errors.len() == 0 {
        ImportReport::Success { message: build_success_message(outcome.success_count) }
    } else {
        ImportReport::Failure { errors: outcome.errors }
    }
}

} // verus!
