//! The data carried through the import pipeline, with the mathematical
//! views that the contracts speak of.

use vstd::prelude::*;
use crate::category::Category;

verus! {

/// One import problem, attributed to a data line.  `data` echoes the raw
/// fields of the offending row where they were available.
pub struct ImportError {
    pub line: u64,
    pub message: String,
    pub data: Option<Vec<String>>,
}

/// The mathematical view of an `ImportError`.
pub ghost struct ErrorView {
    pub line: u64,
    pub message: Seq<char>,
    pub data: Option<Seq<Seq<char>>>,
}

impl View for ImportError {
    type V = ErrorView;

    open spec fn view(&self) -> ErrorView {
        ErrorView {
            line: self.line,
            message: self.message@,
            data: match self.data {
                Some(d) => Some(d.deep_view()),
                None => None,
            },
        }
    }
}

impl DeepView for ImportError {
    type V = ErrorView;

    open spec fn deep_view(&self) -> ErrorView {
        self.view()
    }
}

/// A fully validated product, ready to be committed to the store.  The
/// price is carried as the bit pattern of an IEEE 754 double-precision
/// value, as handed in by the price verdict; the pipeline never reads it.
pub struct ProductCandidate {
    pub name: String,
    pub price_bits: u64,
    pub category: Category,
    pub has_active_sale: bool,
}

/// The mathematical view of a `ProductCandidate`.
pub ghost struct CandidateView {
    pub name: Seq<char>,
    pub price_bits: u64,
    pub category: Category,
    pub has_active_sale: bool,
}

impl View for ProductCandidate {
    type V = CandidateView;

    open spec fn view(&self) -> CandidateView {
        CandidateView {
            name: self.name@,
            price_bits: self.price_bits,
            category: self.category,
            has_active_sale: self.has_active_sale,
        }
    }
}

impl DeepView for ProductCandidate {
    type V = CandidateView;

    open spec fn deep_view(&self) -> CandidateView {
        self.view()
    }
}

/// The verdict of parsing a cleaned price string as a decimal number.  The
/// caller performs the parse (the pipeline holds no fractional numbers) and
/// the validator turns the verdict into errors or a committed price.
pub enum PriceParse {
    /// The string parsed to a non-negative value, given as its bit pattern.
    NonNegative(u64),
    /// The string parsed to a negative value; the payload is the parsed
    /// value as the parser renders it.
    Negative(String),
    /// The string did not parse; the payload is the parser's error text.
    Invalid(String),
}

/// The result of one attempted insertion of a candidate into the store.
pub enum InsertResult {
    Inserted,
    Failed(String),
}

/// Clones a vector of strings, preserving its view.
pub fn clone_string_vec(fields: &Vec<String>) -> (r: Vec<String>)
    ensures
        r.deep_view() == fields.deep_view(),
{
    let mut r: Vec<String> = Vec::new();
    let mut i: usize = 0;
    while i < fields.len()
        invariant
            0 <= i <= fields.len(),
            r.deep_view() =~= fields.deep_view().take(i as int),
        decreases fields.len() - i,
    {
        r.push(fields[i].clone());
        i = i + 1;
    }
    proof {
        assert(fields.deep_view().take(fields@.len() as int) =~= fields.deep_view());
    }
    r
}

/// Clones an import error, preserving its view.
pub fn clone_import_error(e: &ImportError) -> (r: ImportError)
    ensures
        r@ == e@,
{
    ImportError {
        line: e.line,
        message: e.message.clone(),
        data: match &e.data {
            Some(d) => Some(clone_string_vec(d)),
            None => None,
        },
    }
}

} // verus!
