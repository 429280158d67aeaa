//! The decisions behind the product-listing query: pagination arithmetic
//! and the sort-column whitelist.

use vstd::prelude::*;
use crate::text::str_eq_str;

verus! {

/// The page actually listed: the requested page, at least 1, defaulting
/// to 1.
pub open spec fn effective_page(page: Option<i64>) -> int {
    let p: int = match page {
        Some(p) => p as int,
        None => 1,
    };
    if p < 1 {
        1
    } else {
        p
    }
}

/// The page size actually used: the requested one, defaulting to 15.
pub open spec fn effective_per_page(per_page: Option<i64>) -> int {
    match per_page {
        Some(p) => p as int,
        None => 15,
    }
}

/// How many documents the listing skips: full pages before the requested
/// one.
pub open spec fn listing_skip(page: Option<i64>, per_page: Option<i64>) -> int {
    (effective_page(page) - 1) * effective_per_page(per_page)
}

/// The view of an optional borrowed string.
pub open spec fn opt_str_view(s: Option<&str>) -> Option<Seq<char>> {
    match s {
        Some(t) => Some(t@),
        None => None,
    }
}

/// Whether the listing sorts by price.  Only `name` and `price` are
/// allowed sort columns; anything else falls back to `name`.
pub open spec fn sorts_by_price(sort: Option<Seq<char>>) -> bool {
    sort == Some("price"@)
}

/// Whether the listing sorts in descending order.
pub open spec fn sorts_descending(direction: Option<Seq<char>>) -> bool {
    direction == Some("desc"@)
}

/// The resolved listing plan.
pub struct ListingPlan {
    pub page: i64,
    pub per_page: i64,
    pub skip: i64,
    pub sort_by_price: bool,
    pub descending: bool,
}

/// Resolves the raw listing query into a plan: pagination defaults, the
/// skip count, the whitelisted sort column and the sort direction.
pub fn plan_product_listing(
    page: Option<i64>,
    per_page: Option<i64>,
    sort: Option<&str>,
    direction: Option<&str>,
) -> (p: ListingPlan)
    requires
        i64::MIN <= listing_skip(page, per_page) <= i64::MAX,
    ensures
        p.page == effective_page(page),
        p.per_page == effective_per_page(per_page),
        p.skip == listing_skip(page, per_page),
        p.sort_by_price == sorts_by_price(opt_str_view(sort)),
        p.descending == sorts_descending(opt_str_view(direction)),
{
    let pg: i64 = match page {
        Some(p) => if p < 1 {
            1
        } else {
            p
        },
        None => 1,
    };
    let pp: i64 = match per_page {
        Some(p) => p,
        None => 15,
    };
    let skip: i64 = (pg - 1) * pp;
    let sort_by_price: bool = match sort {
        Some(s) => str_eq_str(s, "price"),
        None => false,
    };
    let descending: bool = match direction {
        Some(d) => str_eq_str(d, "desc"),
        None => false,
    };
    ListingPlan { page: pg, per_page: pp, skip, sort_by_price, descending }
}

} // verus!
