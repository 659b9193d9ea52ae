//! Today's date as the report shows it ("DD.MM"), read from the local clock.
use vstd::prelude::*;

use chrono::Datelike;

use crate::text::{two_digit_decimal, two_digit_text};

verus! {

/// A date written as the report writes it: day and month, each with two
/// digits, separated by a dot.
pub open spec fn date_text(day: nat, month: nat) -> Seq<char> {
    two_digit_text(day) + seq!['.'] + two_digit_text(month)
}

/// Reads the system clock once (`std::time::SystemTime::now`), turns that
/// reading into a local date and time with chrono's
/// `From<SystemTime> for DateTime<Local>`, and returns its day of the month
/// (`Datelike::day`) and its month (`Datelike::month`). chrono documents the
/// day as lying in 1 to 31 and the month in 1 to 12; that is all that is
/// stated, since which date it is depends on the time and on the machine's
/// time zone. The conversion accepts clock readings before 1970 (it counts
/// them backwards from the epoch). Left unsaid because no `requires` can
/// rule it out: chrono's lookup of the local offset panics when the
/// system's time-zone data cannot be read or gives no offset for the
/// reading (`offset/local/mod.rs`, `offset/local/unix.rs`), and the
/// conversion panics on a clock reading hundreds of thousands of years away
/// from the present, outside the range of chrono's dates.
#[verifier::external_body]
fn local_day_and_month() -> (r: (u32, u32))
    ensures
        1 <= r.0 <= 31,
        1 <= r.1 <= 12,
{
    let now = chrono::DateTime::<chrono::Local>::from(std::time::SystemTime::now());
    (now.day(), now.month())
}

/// Writes a day and a month as "DD.MM".
pub fn format_day_month(day: u32, month: u32) -> (res: String)
    ensures
        res@ == date_text(day as nat, month as nat),
{
    let mut s = two_digit_decimal(day);
    push_dot(&mut s);
    let m = two_digit_decimal(month);
    s.append(m.as_str());
    s
}

fn push_dot(s: &mut String)
    ensures
        final(s)@ == old(s)@ + seq!['.'],
{
    crate::text::push_char(s, '.');
    assert(s@ =~= old(s)@ + seq!['.']);
}

/// Today's date as "DD.MM", by the local clock.
pub fn today_dd_mm() -> (res: String)
    ensures
        exists|day: u32, month: u32|
            1 <= day <= 31 && 1 <= month <= 12 && res@ == #[trigger] date_text(
                day as nat,
                month as nat,
            ),
{
    let (day, month) = local_day_and_month();
    let res = format_day_month(day, month);
    assert(res@ == date_text(day as nat, month as nat));
    res
}

} // verus!
