//! The closed set of product categories and the total mapping from raw
//! category text onto it.

use vstd::prelude::*;
use crate::text::str_eq_str;

verus! {

/// A product category.  Classification is total: any text that is not one
/// of the four known names resolves to `Other`, never to an error.
#[derive(Debug, Clone, Copy, PartialEq, Eq, Structural)]
pub enum Category {
    Electronics,
    Clothing,
    Food,
    Books,
    Other,
}

/// The category a normalized (lower-case) category text denotes.
pub open spec fn category_of(s: Seq<char>) -> Category {
    if s == "electronics"@ {
        Category::Electronics
    } else if s == "clothing"@ {
        Category::Clothing
    } else if s == "food"@ {
        Category::Food
    } else if s == "books"@ {
        Category::Books
    } else {
        Category::Other
    }
}

/// The canonical lower-case name of a category.
pub open spec fn category_name(c: Category) -> Seq<char> {
    match c {
        Category::Electronics => "electronics"@,
        Category::Clothing => "clothing"@,
        Category::Food => "food"@,
        Category::Books => "books"@,
        Category::Other => "other"@,
    }
}

impl Category {
    /// The canonical lower-case name of the category.
    pub fn to_string(&self) -> (s: String)
        ensures
            s@ == category_name(*self),
    {
        match self {
            Category::Electronics => "electronics".to_owned(),
            Category::Clothing => "clothing".to_owned(),
            Category::Food => "food".to_owned(),
            Category::Books => "books".to_owned(),
            Category::Other => "other".to_owned(),
        }
    }
}

/// Maps normalized category text to its category.
pub fn classify_category(normalized: &str) -> (c: Category)
    ensures
        c == category_of(normalized@),
{
    if str_eq_str(normalized, "electronics") {
        Category::Electronics
    } else if str_eq_str(normalized, "clothing") {
        Category::Clothing
    } else if str_eq_str(normalized, "food") {
        Category::Food
    } else if str_eq_str(normalized, "books") {
        Category::Books
    } else {
        Category::Other
    }
}

/// Category mapping is total: every input string maps to exactly one of the
/// five categories, the four known names map to their own category, and
/// everything else maps to `Other` — there is no error path.
pub proof fn lemma_category_total(s: Seq<char>)
    ensures
        category_of(s) == Category::Electronics || category_of(s) == Category::Clothing
            || category_of(s) == Category::Food || category_of(s) == Category::Books
            || category_of(s) == Category::Other,
        category_of(s) == Category::Electronics <==> s == "electronics"@,
        category_of(s) == Category::Clothing <==> s == "clothing"@,
        category_of(s) == Category::Food <==> s == "food"@,
        category_of(s) == Category::Books <==> s == "books"@,
        s != "electronics"@ && s != "clothing"@ && s != "food"@ && s != "books"@
            ==> category_of(s) == Category::Other,
{
    broadcast use vstd::string::group_string_axioms;

    reveal_strlit("electronics");
    reveal_strlit("clothing");
    reveal_strlit("food");
    reveal_strlit("books");
    assert("electronics"@.len() == 11);
    assert("clothing"@.len() == 8);
    assert("food"@.len() == 4);
    assert("books"@.len() == 5);
}

} // verus!
