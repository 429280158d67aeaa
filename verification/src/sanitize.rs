//! The field sanitizer: name splitting, id-tag and name cleaning, price
//! cleaning, and the per-row bundle of sanitized fields.

use vstd::prelude::*;
use vstd::string::*;
use crate::chars::char_is_invisible;
use crate::chars::char_keeps_id;
use crate::chars::char_keeps_name;
use crate::chars::is_invisible_char;
use crate::chars::keeps_id_char;
use crate::chars::keeps_name_char;
use crate::text::filtered;
use crate::text::find_char;
use crate::text::first_index_of;
use crate::text::lemma_filtered_all_keep;
use crate::text::lemma_filtered_identity;
use crate::text::lemma_filtered_take_succ;
use crate::text::lower_of;
use crate::text::to_lowercase_str;
use crate::text::trim_spec;
use crate::text::trim_str;

verus! {

/// The characters of `s` that survive name sanitization, in order:
/// alphanumeric, whitespace and hyphen characters.
pub open spec fn name_kept_chars(s: Seq<char>) -> Seq<char> {
    filtered(s, |c: char| keeps_name_char(c))
}

/// The characters of `s` that survive id sanitization, in order:
/// alphanumeric characters, hyphen and underscore.
pub open spec fn id_kept_chars(s: Seq<char>) -> Seq<char> {
    filtered(s, |c: char| keeps_id_char(c))
}

/// The characters of `s` that are not invisible (zero-width space,
/// byte-order mark, carriage return, line feed), in order.
pub open spec fn visible_chars(s: Seq<char>) -> Seq<char> {
    filtered(s, |c: char| !is_invisible_char(c))
}

/// Keeps only alphanumeric, whitespace and hyphen characters.
pub fn filter_name_chars(s: &str) -> (r: String)
    ensures
        r@ == name_kept_chars(s@),
{
    let n = s.unicode_len();
    let mut r = String::new();
    let mut i: usize = 0;
    while i < n
        invariant
            0 <= i <= n,
            n == s@.len(),
            r@ == name_kept_chars(s@.take(i as int)),
        decreases n - i,
    {
        let c = s.get_char(i);
        if char_keeps_name(c) {
            let piece = s.substring_char(i, i + 1);
            proof {
                assert(piece@ =~= seq![s@[i as int]]);
            }
            r.append(piece);
        }
        proof {
            lemma_filtered_take_succ(s@, |c: char| keeps_name_char(c), i as int);
        }
        i = i + 1;
    }
    proof {
        assert(s@.take(n as int) =~= s@);
    }
    r
}

/// Keeps only alphanumeric, hyphen and underscore characters.
pub fn filter_id_chars(s: &str) -> (r: String)
    ensures
        r@ == id_kept_chars(s@),
{
    let n = s.unicode_len();
    let mut r = String::new();
    let mut i: usize = 0;
    while i < n
        invariant
            0 <= i <= n,
            n == s@.len(),
            r@ == id_kept_chars(s@.take(i as int)),
        decreases n - i,
    {
        let c = s.get_char(i);
        if char_keeps_id(c) {
            let piece = s.substring_char(i, i + 1);
            proof {
                assert(piece@ =~= seq![s@[i as int]]);
            }
            r.append(piece);
        }
        proof {
            lemma_filtered_take_succ(s@, |c: char| keeps_id_char(c), i as int);
        }
        i = i + 1;
    }
    proof {
        assert(s@.take(n as int) =~= s@);
    }
    r
}

/// Removes every invisible character, wherever it stands.
pub fn remove_invisible_chars(s: &str) -> (r: String)
    ensures
        r@ == visible_chars(s@),
{
    let n = s.unicode_len();
    let mut r = String::new();
    let mut i: usize = 0;
    while i < n
        invariant
            0 <= i <= n,
            n == s@.len(),
            r@ == visible_chars(s@.take(i as int)),
        decreases n - i,
    {
        let c = s.get_char(i);
        if !char_is_invisible(c) {
            let piece = s.substring_char(i, i + 1);
            proof {
                assert(piece@ =~= seq![s@[i as int]]);
            }
            r.append(piece);
        }
        proof {
            lemma_filtered_take_succ(s@, |c: char| !is_invisible_char(c), i as int);
        }
        i = i + 1;
    }
    proof {
        assert(s@.take(n as int) =~= s@);
    }
    r
}

/// The input with a single leading dollar sign removed, if one is there.
pub open spec fn strip_dollar_spec(s: Seq<char>) -> Seq<char> {
    if s.len() > 0 && s.first() == '$' {
        s.drop_first()
    } else {
        s
    }
}

/// The price-cleaning rules: strip a single leading `$`, trim whitespace,
/// then remove every invisible character anywhere in the string.
pub open spec fn clean_price_spec(s: Seq<char>) -> Seq<char> {
    visible_chars(trim_spec(strip_dollar_spec(s)))
}

/// Applies the price-cleaning rules.
pub fn clean_price(s: &str) -> (r: String)
    ensures
        r@ == clean_price_spec(s@),
{
    let n = s.unicode_len();
    let stripped: String = if n > 0 && s.get_char(0) == '$' {
        let rest = s.substring_char(1, n);
        proof {
            assert(rest@ =~= s@.drop_first());
        }
        rest.to_owned()
    } else {
        s.to_owned()
    };
    let trimmed = trim_str(stripped.as_str());
    remove_invisible_chars(trimmed.as_str())
}

/// The id tag with one surrounding pair of parentheses removed: a single
/// leading `(` if present, then a single trailing `)` if present.
pub open spec fn strip_paren_spec(s: Seq<char>) -> Seq<char> {
    let t = if s.len() > 0 && s.first() == '(' {
        s.drop_first()
    } else {
        s
    };
    if t.len() > 0 && t.last() == ')' {
        t.drop_last()
    } else {
        t
    }
}

/// The sanitized id suffix of a raw id tag: empty when the tag is empty or
/// nothing of it survives, otherwise `#` followed by the kept characters.
pub open spec fn sanitize_id_spec(id: Seq<char>) -> Seq<char> {
    if id.len() == 0 {
        Seq::empty()
    } else {
        let kept = id_kept_chars(strip_paren_spec(id));
        if kept.len() == 0 {
            Seq::empty()
        } else {
            seq!['#'] + kept
        }
    }
}

/// Sanitizes a raw id tag.
pub fn sanitize_id_tag(id: &str) -> (r: String)
    ensures
        r@ == sanitize_id_spec(id@),
{
    let n = s_len(id);
    if n == 0 {
        return String::new();
    }
    let after_open: String = if id.get_char(0) == '(' {
        let rest = id.substring_char(1, n);
        proof {
            assert(rest@ =~= id@.drop_first());
        }
        rest.to_owned()
    } else {
        id.to_owned()
    };
    let m = s_len(after_open.as_str());
    let inner: String = if m > 0 && after_open.as_str().get_char(m - 1) == ')' {
        let rest = after_open.as_str().substring_char(0, m - 1);
        proof {
            assert(rest@ =~= after_open@.drop_last());
        }
        rest.to_owned()
    } else {
        after_open
    };
    let kept = filter_id_chars(inner.as_str());
    if s_len(kept.as_str()) == 0 {
        String::new()
    } else {
        let mut r = "#".to_owned();
        proof {
            reveal_strlit("#");
            assert("#"@ =~= seq!['#']);
        }
        r.append(kept.as_str());
        r
    }
}

/// The number of characters in the string.
fn s_len(s: &str) -> (n: usize)
    ensures
        n == s@.len(),
{
    s.unicode_len()
}

/// Name sanitization: keep alphanumeric, whitespace and hyphen characters,
/// then trim the result.
pub open spec fn sanitize_name_spec(s: Seq<char>) -> Seq<char> {
    trim_spec(name_kept_chars(s))
}

/// Sanitizes a candidate product name.
pub fn sanitize_name(s: &str) -> (r: String)
    ensures
        r@ == sanitize_name_spec(s@),
{
    let kept = filter_name_chars(s);
    trim_str(kept.as_str())
}

/// Splitting the first column at its first `#`: the trimmed left part is
/// the candidate name, the trimmed right part the candidate id tag.  With
/// no `#`, the whole (already trimmed) text is the name and the tag is
/// empty.
pub open spec fn split_name_spec(raw: Seq<char>) -> (Seq<char>, Seq<char>) {
    match first_index_of(raw, '#') {
        Some(i) => (trim_spec(raw.take(i)), trim_spec(raw.skip(i + 1))),
        None => (raw, Seq::empty()),
    }
}

/// Splits a raw first column into candidate name and id tag.
pub fn split_name(raw: &str) -> (r: (String, String))
    ensures
        r.0@ == split_name_spec(raw@).0,
        r.1@ == split_name_spec(raw@).1,
{
    let n = s_len(raw);
    match find_char(raw, '#') {
        Some(i) => {
            let left = raw.substring_char(0, i);
            proof {
                assert(left@ =~= raw@.take(i as int));
            }
            let right = raw.substring_char(i + 1, n);
            proof {
                assert(right@ =~= raw@.skip(i as int + 1));
            }
            (trim_str(left), trim_str(right))
        },
        None => (raw.to_owned(), String::new()),
    }
}

/// The `i`-th raw field, or the default where the row is too short.
pub open spec fn field_or(fields: Seq<Seq<char>>, i: int, default: Seq<char>) -> Seq<char> {
    if 0 <= i < fields.len() {
        fields[i]
    } else {
        default
    }
}

/// Fetches the `i`-th field of a row, or the default.
pub fn get_field(fields: &Vec<String>, i: usize, default: &str) -> (r: String)
    ensures
        r@ == field_or(fields.deep_view(), i as int, default@),
{
    if i < fields.len() {
        fields[i].clone()
    } else {
        default.to_owned()
    }
}

/// The sanitized fields extracted from one raw row.
pub struct SanitizedFields {
    /// The sanitized product name.
    pub clean_name: String,
    /// The sanitized id suffix: empty, or `#` followed by kept characters.
    pub id_suffix: String,
    /// The trimmed raw price text, before cleaning.
    pub price_input: String,
    /// The cleaned price text, ready to be parsed.
    pub price_raw: String,
    /// The lower-cased category text.
    pub category_raw: String,
    /// The trimmed sale-flag text (`"false"` where the column is missing).
    pub sale_flag_raw: String,
}

/// The mathematical view of `SanitizedFields`.
pub ghost struct SanitizedView {
    pub clean_name: Seq<char>,
    pub id_suffix: Seq<char>,
    pub price_input: Seq<char>,
    pub price_raw: Seq<char>,
    pub category_raw: Seq<char>,
    pub sale_flag_raw: Seq<char>,
}

impl View for SanitizedFields {
    type V = SanitizedView;

    open spec fn view(&self) -> SanitizedView {
        SanitizedView {
            clean_name: self.clean_name@,
            id_suffix: self.id_suffix@,
            price_input: self.price_input@,
            price_raw: self.price_raw@,
            category_raw: self.category_raw@,
            sale_flag_raw: self.sale_flag_raw@,
        }
    }
}

/// What sanitizing one row yields, as a function of its raw fields.
pub open spec fn sanitize_row_spec(fields: Seq<Seq<char>>) -> SanitizedView {
    let raw_name = trim_spec(field_or(fields, 0, Seq::empty()));
    let parts = split_name_spec(raw_name);
    let price_input = trim_spec(field_or(fields, 1, Seq::empty()));
    SanitizedView {
        clean_name: sanitize_name_spec(parts.0),
        id_suffix: sanitize_id_spec(parts.1),
        price_input: price_input,
        price_raw: clean_price_spec(price_input),
        category_raw: lower_of(trim_spec(field_or(fields, 2, Seq::empty()))),
        sale_flag_raw: trim_spec(field_or(fields, 3, "false"@)),
    }
}

/// Sanitizes one raw row.
pub fn sanitize_row(fields: &Vec<String>) -> (s: SanitizedFields)
    ensures
        s@ == sanitize_row_spec(fields.deep_view()),
{
    let f0 = get_field(fields, 0, "");
    let raw_name = trim_str(f0.as_str());
    let (name_part, id_part) = split_name(raw_name.as_str());
    let f1 = get_field(fields, 1, "");
    let price_input = trim_str(f1.as_str());
    let price_raw = clean_price(price_input.as_str());
    let f2 = get_field(fields, 2, "");
    let f2_trim = trim_str(f2.as_str());
    let f3 = get_field(fields, 3, "false");
    proof {
        reveal_strlit("");
        assert(""@ =~= Seq::<char>::empty());
    }
    SanitizedFields {
        clean_name: sanitize_name(name_part.as_str()),
        id_suffix: sanitize_id_tag(id_part.as_str()),
        price_input: price_input,
        price_raw: price_raw,
        category_raw: to_lowercase_str(f2_trim.as_str()),
        sale_flag_raw: trim_str(f3.as_str()),
    }
}

/// No character of a cleaned price string is invisible.
pub proof fn lemma_clean_price_visible(s: Seq<char>)
    ensures
        forall|i: int| 0 <= i < clean_price_spec(s).len() ==> !is_invisible_char(
            #[trigger] clean_price_spec(s)[i],
        ),
{
    lemma_filtered_all_keep(trim_spec(strip_dollar_spec(s)), |c: char| !is_invisible_char(c));
}

/// Price cleaning is idempotent: cleaning an already-cleaned string changes
/// nothing, provided the first pass did not surface a new leading dollar
/// sign or new edge whitespace.  (On a string such as `"$$1"` or
/// `"1 \u{200B} "` a second pass strips further, so those inputs are
/// excluded: they are exactly the ones on which a second pass differs.)
pub proof fn lemma_clean_price_idempotent(s: Seq<char>)
    requires
        clean_price_spec(s).len() > 0 ==> clean_price_spec(s).first() != '$',
        trim_spec(clean_price_spec(s)) == clean_price_spec(s),
    ensures
        clean_price_spec(clean_price_spec(s)) == clean_price_spec(s),
{
    let t = clean_price_spec(s);
    assert(strip_dollar_spec(t) == t);
    assert(trim_spec(strip_dollar_spec(t)) == t);
    lemma_clean_price_visible(s);
    lemma_filtered_identity(t, |c: char| !is_invisible_char(c));
}

} // verus!
