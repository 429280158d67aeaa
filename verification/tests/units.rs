//! Unit exercises of the sanitizer, the category mapping, the listing plan
//! and the authentication helpers.

use product_catalog::auth::{auth_middleware, bearer_token};
use product_catalog::category::{classify_category, Category};
use product_catalog::listing::plan_product_listing;
use product_catalog::models::PriceParse;
use product_catalog::sanitize::{
    clean_price, sanitize_id_tag, sanitize_name, sanitize_row, split_name,
};
use product_catalog::validate::{parse_sale_flag, validate_row};

#[test]
fn price_cleaning_strips_dollar_whitespace_and_invisibles() {
    assert_eq!(clean_price("$19.99"), "19.99");
    assert_eq!(clean_price("  $ 12.50 "), "$ 12.50"); // only a leading `$` is stripped
    assert_eq!(clean_price("$ 12.50"), "12.50");
    assert_eq!(clean_price("$1\u{200B}9.9\u{FEFF}9"), "19.99");
    assert_eq!(clean_price("$1\r9\n"), "19");
    assert_eq!(clean_price(""), "");
    assert_eq!(clean_price("$"), "");
}

#[test]
fn price_cleaning_is_idempotent_on_ordinary_inputs() {
    for s in ["$19.99", "  42 ", "$1\u{200B}2", "", "abc", "$ 7 "] {
        let once = clean_price(s);
        let twice = clean_price(once.as_str());
        assert_eq!(twice, once, "cleaning {:?} twice diverged", s);
    }
}

#[test]
fn name_sanitization_keeps_alphanumeric_whitespace_hyphen() {
    assert_eq!(sanitize_name("Wid*get! 2000"), "Widget 2000");
    assert_eq!(sanitize_name("  spaced  "), "spaced");
    assert_eq!(sanitize_name("semi-detached"), "semi-detached");
    assert_eq!(sanitize_name("$$$"), "");
}

#[test]
fn id_sanitization_strips_one_paren_pair_and_filters() {
    assert_eq!(sanitize_id_tag("42"), "#42");
    assert_eq!(sanitize_id_tag("(42)"), "#42");
    assert_eq!(sanitize_id_tag("((42))"), "#42"); // inner parentheses are filtered out
    assert_eq!(sanitize_id_tag("a-b_c"), "#a-b_c");
    assert_eq!(sanitize_id_tag("$!*"), "");
    assert_eq!(sanitize_id_tag(""), "");
}

#[test]
fn name_splitting_uses_the_first_hash() {
    assert_eq!(
        split_name("Widget #42"),
        (String::from("Widget"), String::from("42"))
    );
    assert_eq!(
        split_name("Widget #4#2"),
        (String::from("Widget"), String::from("4#2"))
    );
    assert_eq!(split_name("Widget"), (String::from("Widget"), String::new()));
}

#[test]
fn category_mapping_is_total_and_case_insensitive_via_lowercasing() {
    assert!(matches!(classify_category("electronics"), Category::Electronics));
    assert!(matches!(classify_category("clothing"), Category::Clothing));
    assert!(matches!(classify_category("food"), Category::Food));
    assert!(matches!(classify_category("books"), Category::Books));
    assert!(matches!(classify_category("toys"), Category::Other));
    assert!(matches!(classify_category(""), Category::Other));
    // The sanitizer lower-cases the raw text before classification.
    let fields = vec![
        String::from("W"),
        String::from("$1"),
        String::from("ELECTRONICS"),
        String::from("true"),
    ];
    let s = sanitize_row(&fields);
    assert_eq!(s.category_raw, "electronics");
    assert!(matches!(
        classify_category(s.category_raw.as_str()),
        Category::Electronics
    ));
}

#[test]
fn category_names_round_trip() {
    assert_eq!(Category::Electronics.to_string(), "electronics");
    assert_eq!(Category::Clothing.to_string(), "clothing");
    assert_eq!(Category::Food.to_string(), "food");
    assert_eq!(Category::Books.to_string(), "books");
    assert_eq!(Category::Other.to_string(), "other");
}

#[test]
fn sale_flag_parses_strictly_and_defaults_false() {
    assert!(parse_sale_flag("true"));
    assert!(!parse_sale_flag("false"));
    assert!(!parse_sale_flag("TRUE"), "boolean parsing is case-sensitive");
    assert!(!parse_sale_flag("yes"));
    assert!(!parse_sale_flag(""));
}

#[test]
fn sanitized_row_with_missing_columns_uses_defaults() {
    let fields = vec![String::from("Widget #42")];
    let s = sanitize_row(&fields);
    assert_eq!(s.clean_name, "Widget");
    assert_eq!(s.id_suffix, "#42");
    assert_eq!(s.price_input, "");
    assert_eq!(s.price_raw, "");
    assert_eq!(s.category_raw, "");
    assert_eq!(s.sale_flag_raw, "false");
}

#[test]
fn eligible_row_keeps_trailing_space_without_id_suffix() {
    let fields = vec![
        String::from("Widget"),
        String::from("$1.25"),
        String::from("food"),
        String::from("true"),
    ];
    let verdict = PriceParse::NonNegative(1.25f64.to_bits());
    let out = validate_row(2, &fields, &verdict);
    assert!(out.errors.is_empty());
    let cand = out.candidate.expect("row is eligible");
    assert_eq!(cand.name, "Widget ", "the trailing space is preserved");
    assert_eq!(cand.price_bits, 1.25f64.to_bits());
    assert!(cand.has_active_sale);
}

#[test]
fn validate_row_trims_its_fields() {
    let fields = vec![
        String::from("  Widget  "),
        String::from(" $2 "),
        String::from(" FOOD "),
        String::from(" true "),
    ];
    let verdict = PriceParse::NonNegative(2.0f64.to_bits());
    let out = validate_row(2, &fields, &verdict);
    assert!(out.errors.is_empty());
    let cand = out.candidate.expect("row is eligible");
    assert_eq!(cand.name, "Widget ");
    assert!(matches!(cand.category, Category::Food));
    assert!(cand.has_active_sale);
}

#[test]
fn listing_plan_defaults_whitelists_and_clamps() {
    let p = plan_product_listing(None, None, None, None);
    assert_eq!(p.page, 1);
    assert_eq!(p.per_page, 15);
    assert_eq!(p.skip, 0);
    assert!(!p.sort_by_price);
    assert!(!p.descending);

    let p = plan_product_listing(Some(3), Some(20), Some("price"), Some("desc"));
    assert_eq!(p.page, 3);
    assert_eq!(p.per_page, 20);
    assert_eq!(p.skip, 40);
    assert!(p.sort_by_price);
    assert!(p.descending);

    let p = plan_product_listing(Some(-7), Some(10), Some("evil"), Some("asc"));
    assert_eq!(p.page, 1, "page is clamped to at least 1");
    assert_eq!(p.skip, 0);
    assert!(!p.sort_by_price, "unknown sort columns fall back to name");
    assert!(!p.descending);
}

#[test]
fn bearer_tokens_are_extracted_exactly() {
    assert_eq!(bearer_token("Bearer abc.def"), Some(String::from("abc.def")));
    assert_eq!(bearer_token("Bearer "), Some(String::new()));
    assert_eq!(bearer_token("bearer abc"), None);
    assert_eq!(bearer_token("Basic abc"), None);
    assert_eq!(bearer_token(""), None);
}

#[test]
fn middleware_factory_wraps_the_service() {
    let wrapped = auth_middleware(7u32);
    assert_eq!(wrapped.service, 7u32);
}
