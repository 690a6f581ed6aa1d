use vstd::prelude::*;
use crate::comic::ComicDate;

verus! {

/// The date that `chrono::NaiveDate::parse_from_str` reads from `s` under
/// format `fmt`, as (year, month, day); `None` when the text does not
/// match the format or names no valid calendar date. The result depends on
/// the two strings alone.
pub uninterp spec fn date_of(s: Seq<char>, fmt: Seq<char>) -> Option<(int, int, int)>;

/// Relies on `chrono::NaiveDate::parse_from_str` and on the
/// `chrono::Datelike` accessors `year`, `month` and `day`; chrono
/// documents that `month` ranges over 1..=12 and `day` over 1..=31.
#[verifier::external_body]
fn parse_date(s: &str, fmt: &str) -> (r: Option<(i32, u32, u32)>)
    ensures
        r is Some <==> date_of(s@, fmt@) is Some,
        r is Some ==> date_of(s@, fmt@) == Some(
            (r->Some_0.0 as int, r->Some_0.1 as int, r->Some_0.2 as int),
        ),
        r is Some ==> 1 <= r->Some_0.1 <= 12 && 1 <= r->Some_0.2 <= 31,
{
    match chrono::NaiveDate::parse_from_str(s, fmt) {
        Ok(d) => Some(
            (chrono::Datelike::year(&d), chrono::Datelike::month(&d), chrono::Datelike::day(&d)),
        ),
        Err(_) => None,
    }
}

/// The format a post date is written in: full month name, day of month,
/// comma, four-digit year — as in `January 5, 2015`.
pub open spec fn date_format() -> Seq<char> {
    "%B %e, %Y"@
}

/// Parse a post date text, `None` when it does not conform.
pub fn parse_post_date(s: &str) -> (r: Option<ComicDate>)
    ensures
        r is Some <==> date_of(s@, date_format()) is Some,
        r is Some ==> {
            let d = r->Some_0;
            &&& date_of(s@, date_format()) == Some((d.year as int, d.month as int, d.day as int))
            &&& d.wf()
        },
{
    match parse_date(s, "%B %e, %Y") {
        Some((year, month, day)) => Some(ComicDate { year, month, day }),
        None => None,
    }
}

} // verus!
