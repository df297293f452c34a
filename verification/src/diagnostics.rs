//! The messages that the entry points emit, and their wording.

use crate::types::{HolidayView, PublicHolidayV3Dto};
use vstd::prelude::*;

verus! {

/// The mathematical content of a [`Diagnostic`].
pub enum DiagnosticView {
    Alert(Seq<char>),
    Log(Seq<char>),
}

/// One message for the host, with the channel that it goes out on.
#[derive(Debug, PartialEq, Eq)]
pub enum Diagnostic {
    /// A notification shown to the user.
    Alert(String),
    /// A line for the host's log.
    Log(String),
}

impl View for Diagnostic {
    type V = DiagnosticView;

    open spec fn view(&self) -> DiagnosticView {
        match *self {
            Diagnostic::Alert(text) => DiagnosticView::Alert(text@),
            Diagnostic::Log(text) => DiagnosticView::Log(text@),
        }
    }
}

impl DeepView for Diagnostic {
    type V = DiagnosticView;

    open spec fn deep_view(&self) -> DiagnosticView {
        self@
    }
}

/// The greeting for `name`.
pub open spec fn greeting(name: Seq<char>) -> Seq<char> {
    "Hello, "@ + name + "!"@
}

/// What greeting `name` emits: the greeting as an alert, then as a log line.
pub open spec fn greet_report(name: Seq<char>) -> Seq<DiagnosticView> {
    seq![DiagnosticView::Alert(greeting(name)), DiagnosticView::Log(greeting(name))]
}

/// The name that a holiday is reported under: its own, or the placeholder
/// where it has none.
pub open spec fn reported_name(holiday: HolidayView) -> Seq<char> {
    match holiday.name {
        Some(name) => name,
        None => "undefined"@,
    }
}

/// The log line for one holiday.
pub open spec fn holiday_text(holiday: HolidayView) -> Seq<char> {
    "Holiday: "@ + reported_name(holiday) + " on "@ + holiday.date
}

/// The log line for a date range, given the quoted forms of its two dates.
pub open spec fn range_text(start_quoted: Seq<char>, end_quoted: Seq<char>) -> Seq<char> {
    "DateRange { start: "@ + start_quoted + ", end: "@ + end_quoted + " }"@
}

/// What a scheduling request emits: one log line for each holiday, in order,
/// then the line of the date range.
pub open spec fn schedule_report(range_line: Seq<char>, holidays: Seq<HolidayView>) -> Seq<
    DiagnosticView,
> {
    holidays.map_values(|holiday: HolidayView| DiagnosticView::Log(holiday_text(holiday))).push(
        DiagnosticView::Log(range_line),
    )
}

/// The log line for one holiday: its name, or `undefined` where it has none,
/// and its date.
pub fn holiday_line(holiday: &PublicHolidayV3Dto) -> (out: String)
    ensures
        out@ == holiday_text(holiday@),
{
    let name = match holiday.name() {
        Some(name) => name,
        None => String::from_str("undefined"),
    };
    let date = holiday.date();
    let mut out = String::from_str("Holiday: ");
    out.append(name.as_str());
    out.append(" on ");
    out.append(date.as_str());
    out
}

/// The log line for a date range whose two dates are given in quoted form.
pub fn range_line(start_quoted: &str, end_quoted: &str) -> (out: String)
    ensures
        out@ == range_text(start_quoted@, end_quoted@),
{
    let mut out = String::from_str("DateRange { start: ");
    out.append(start_quoted);
    out.append(", end: ");
    out.append(end_quoted);
    out.append(" }");
    out
}

/// A request without holidays emits the line of the date range and nothing
/// else.
pub proof fn lemma_empty_schedule(range_line: Seq<char>)
    ensures
        schedule_report(range_line, Seq::<HolidayView>::empty()) == seq![
            DiagnosticView::Log(range_line),
        ],
{
    assert(schedule_report(range_line, Seq::<HolidayView>::empty()) =~= seq![
        DiagnosticView::Log(range_line),
    ]);
}

/// A holiday without a name is reported with the placeholder `undefined`
/// where its name would stand.
pub proof fn lemma_absent_name_placeholder(
    range_line: Seq<char>,
    holidays: Seq<HolidayView>,
    index: int,
)
    requires
        0 <= index < holidays.len(),
        holidays[index].name is None,
    ensures
        schedule_report(range_line, holidays)[index] == DiagnosticView::Log(
            "Holiday: "@ + "undefined"@ + " on "@ + holidays[index].date,
        ),
{
}

} // verus!
