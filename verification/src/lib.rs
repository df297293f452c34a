//! Holiday records and scheduling diagnostics for a dynamically typed host.
//!
//! The host hands over loosely typed values; this crate decodes them into
//! typed records, gives typed access to every field, and computes the
//! diagnostics that its two entry points emit. Sending them is the caller's
//! part.

pub mod diagnostics;
pub mod host;
pub mod text;
pub mod types;

use crate::diagnostics::{
    greet_report, holiday_line, holiday_text, range_text, schedule_report, Diagnostic,
    DiagnosticView,
};
use crate::text::debug_quoted;
use crate::types::{DateRange, HolidayView, PublicHolidayV3Dto};
use vstd::prelude::*;

verus! {

/// The contents of a sequence of records.
pub open spec fn holiday_views(holidays: Seq<PublicHolidayV3Dto>) -> Seq<HolidayView> {
    holidays.map_values(|holiday: PublicHolidayV3Dto| holiday@)
}

/// The greeting for `name`, once as an alert and once as a log line.
pub fn greet(name: &str) -> (out: Vec<Diagnostic>)
    ensures
        out.deep_view() == greet_report(name@),
{
    let mut alert = String::from_str("Hello, ");
    alert.append(name);
    alert.append("!");
    let log = alert.clone();
    let mut out: Vec<Diagnostic> = Vec::new();
    out.push(Diagnostic::Alert(alert));
    out.push(Diagnostic::Log(log));
    assert(out.deep_view() =~= greet_report(name@));
    out
}

/// The diagnostics of a scheduling request: one log line for each holiday,
/// in order, then one that renders the date range. Nothing is scheduled.
pub fn schedule(date_range: DateRange, public_holidays: Box<[PublicHolidayV3Dto]>) -> (out: Vec<
    Diagnostic,
>)
    ensures
        out.deep_view() == schedule_report(
            range_text(debug_quoted(date_range@.start), debug_quoted(date_range@.end)),
            holiday_views(public_holidays@),
        ),
{
    let mut out: Vec<Diagnostic> = Vec::new();
    let count: usize = public_holidays.len();
    let mut index: usize = 0;
    while index < count
        invariant
            count == public_holidays@.len(),
            index <= count,
            out@.len() == index,
            forall|k: int|
                0 <= k < index ==> (#[trigger] out@[k])@ == DiagnosticView::Log(
                    holiday_text(public_holidays@[k]@),
                ),
        decreases count - index,
    {
        out.push(Diagnostic::Log(holiday_line(&public_holidays[index])));
        index = index + 1;
    }
    out.push(Diagnostic::Log(date_range.debug_text()));
    assert(out.deep_view() =~= schedule_report(
        range_text(debug_quoted(date_range@.start), debug_quoted(date_range@.end)),
        holiday_views(public_holidays@),
    ));
    out
}

} // verus!
