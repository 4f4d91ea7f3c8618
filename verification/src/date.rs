//! Calendar dates and the formats in which the registries write them.

use crate::text::trim;
use crate::text::trimmed;
use chrono::Datelike;
use chrono::NaiveDate;
use vstd::prelude::*;
use vstd::utf8::encode_utf8;

verus! {

/// A calendar date.
#[derive(Debug, Clone, Copy, PartialEq, Eq, Structural)]
pub struct Date {
    pub year: i32,
    pub month: u32,
    pub day: u32,
}

impl Date {
    /// Month and day are in the ranges of a calendar.
    pub open spec fn in_range(self) -> bool {
        1 <= self.month <= 12 && 1 <= self.day <= 31
    }
}

/// The date that chrono reads from a text under a `strftime` format, if it
/// reads one.
pub uninterp spec fn date_in_format(s: Seq<char>, format: Seq<char>) -> Option<Date>;

/// `NaiveDate::parse_from_str`, with the date taken apart by
/// `Datelike::year`, `month` and `day`. Chrono counts months from 1 to 12 and
/// days from 1 to 31.
#[verifier::external_body]
fn parse_in_format(s: &str, format: &str) -> (r: Option<Date>)
    ensures
        r == date_in_format(s@, format@),
        r is Some ==> r->0.in_range(),
{
    NaiveDate::parse_from_str(s, format).ok().map(
        |d| Date { year: d.year(), month: d.month(), day: d.day() },
    )
}

/// The first of two readings that succeeded.
pub open spec fn or_date(first: Option<Date>, second: Option<Date>) -> Option<Date> {
    if first is Some {
        first
    } else {
        second
    }
}

/// What [`parse_date`] returns: the trimmed text read as `YYYY-MM-DD`, else as
/// `DD.MM.YYYY`, else as `YYYY.MM.DD`, else as `DD/MM/YYYY`, else, if it is
/// eight bytes long, as `YYYYMMDD`.
pub open spec fn parse_date_spec(s: Seq<char>) -> Option<Date> {
    let t = trimmed(s);
    if t.len() == 0 {
        None
    } else {
        or_date(
            date_in_format(t, "%Y-%m-%d"@),
            or_date(
                date_in_format(t, "%d.%m.%Y"@),
                or_date(
                    date_in_format(t, "%Y.%m.%d"@),
                    or_date(
                        date_in_format(t, "%d/%m/%Y"@),
                        if encode_utf8(t).len() == 8 {
                            date_in_format(t, "%Y%m%d"@)
                        } else {
                            None
                        },
                    ),
                ),
            ),
        )
    }
}

/// Reads a date written in one of the registries' formats.
pub fn parse_date(s: &str) -> (r: Option<Date>)
    ensures
        r == parse_date_spec(s@),
        r is Some ==> r->0.in_range(),
{
    let text = trim(s);
    let t = text.as_str();
    if t.is_empty() {
        return None;
    }
    let iso = parse_in_format(t, "%Y-%m-%d");
    if iso.is_some() {
        return iso;
    }
    let dotted = parse_in_format(t, "%d.%m.%Y");
    if dotted.is_some() {
        return dotted;
    }
    let dotted_year_first = parse_in_format(t, "%Y.%m.%d");
    if dotted_year_first.is_some() {
        return dotted_year_first;
    }
    let slashed = parse_in_format(t, "%d/%m/%Y");
    if slashed.is_some() {
        return slashed;
    }
    if t.as_bytes().len() == 8 {
        let compact = parse_in_format(t, "%Y%m%d");
        if compact.is_some() {
            return compact;
        }
    }
    None
}

} // verus!
