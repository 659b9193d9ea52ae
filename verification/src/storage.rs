//! How the monthly total is kept between runs: as its decimal text.
use vstd::prelude::*;

use crate::text::{decimal_text, int_text, parse_i64, parse_i64_spec, trim_spec, trim_text};

verus! {

/// The monthly total that stored text stands for: the text, trimmed, parsed
/// as an `i64`; zero where it does not parse.
pub open spec fn total_from_text(s: Seq<char>) -> i64 {
    match parse_i64_spec(trim_spec(s)) {
        Some(v) => v,
        None => 0,
    }
}

/// The monthly total read back from storage: zero where nothing could be
/// read, else the value of the text that was read.
pub fn load_monthly(stored: Option<&str>) -> (v: i64)
    ensures
        stored is None ==> v == 0,
        stored matches Some(s) ==> v == total_from_text(s@),
{
    match stored {
        None => 0,
        Some(s) => {
            let t = trim_text(s);
            match parse_i64(t) {
                Some(v) => v,
                None => 0,
            }
        },
    }
}

/// The text under which the monthly total `value` is stored.
pub fn save_monthly(value: i64) -> (res: String)
    ensures
        res@ == int_text(value as int),
{
    decimal_text(value)
}

/// What is stored for a monthly total is read back as the same total.
pub proof fn lemma_stored_total_reads_back(value: i64)
    ensures
        total_from_text(int_text(value as int)) == value,
{
    let s = int_text(value as int);
    crate::text::lemma_parse_int_text(value);
    if value < 0 {
        crate::text::lemma_nat_digits((-value) as nat);
        let d = crate::text::nat_digits((-value) as nat);
        assert(s[0] == '-');
        assert(s.last() == d.last());
        assert(crate::text::is_digit(d.last()));
    } else {
        crate::text::lemma_nat_digits(value as nat);
        assert(crate::text::is_digit(s[0]));
        assert(crate::text::is_digit(s.last()));
    }
    crate::text::lemma_trim_no_white_space_ends(s);
}

} // verus!
