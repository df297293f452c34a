use holiday_schedule::diagnostics::{holiday_line, range_line, Diagnostic};
use holiday_schedule::host::HostValue;
use holiday_schedule::types::{DateRange, PublicHolidayV3Dto};
use holiday_schedule::{greet, schedule};

fn holiday(name: Option<&str>, date: &str) -> PublicHolidayV3Dto {
    PublicHolidayV3Dto::new(
        date.to_string(),
        None,
        name.map(|text| text.to_string()),
        None,
        None,
        true,
        HostValue::Null,
        None,
        HostValue::Undefined,
    )
    .ok()
    .unwrap()
}

fn year_2024() -> DateRange {
    DateRange::new("2024-01-01".to_string(), "2024-12-31".to_string())
}

fn log(text: &str) -> Diagnostic {
    Diagnostic::Log(text.to_string())
}

#[test]
fn greet_alerts_then_logs() {
    assert_eq!(
        greet("World"),
        vec![Diagnostic::Alert("Hello, World!".to_string()), log("Hello, World!")]
    );
}

#[test]
fn greet_takes_any_name() {
    assert_eq!(greet(""), vec![Diagnostic::Alert("Hello, !".to_string()), log("Hello, !")]);
    assert_eq!(
        greet("{} \u{00e9}"),
        vec![Diagnostic::Alert("Hello, {} \u{00e9}!".to_string()), log("Hello, {} \u{00e9}!")]
    );
}

#[test]
fn schedule_without_holidays() {
    let out = schedule(year_2024(), Vec::new().into_boxed_slice());
    assert_eq!(out, vec![log("DateRange { start: \"2024-01-01\", end: \"2024-12-31\" }")]);
}

#[test]
fn schedule_absent_name() {
    let out = schedule(year_2024(), vec![holiday(None, "2024-05-01")].into_boxed_slice());
    assert_eq!(out.len(), 2);
    assert_eq!(out[0], log("Holiday: undefined on 2024-05-01"));
    assert_eq!(out[1], log("DateRange { start: \"2024-01-01\", end: \"2024-12-31\" }"));
}

#[test]
fn schedule_keeps_the_order() {
    let holidays = vec![
        holiday(Some("New Year"), "2024-01-01"),
        holiday(None, "2024-05-01"),
        holiday(Some(""), ""),
        holiday(Some("New Year"), "2024-01-01"),
    ];
    let out = schedule(DateRange::new(String::new(), "later".to_string()), holidays.into_boxed_slice());
    assert_eq!(
        out,
        vec![
            log("Holiday: New Year on 2024-01-01"),
            log("Holiday: undefined on 2024-05-01"),
            log("Holiday:  on "),
            log("Holiday: New Year on 2024-01-01"),
            log("DateRange { start: \"\", end: \"later\" }"),
        ]
    );
}

#[test]
fn holiday_line_wording() {
    assert_eq!(holiday_line(&holiday(Some("Labour Day"), "2024-05-01")), "Holiday: Labour Day on 2024-05-01");
    assert_eq!(holiday_line(&holiday(None, "")), "Holiday: undefined on ");
    assert_eq!(holiday_line(&holiday(Some("undefined"), "x")), "Holiday: undefined on x");
}

#[test]
fn range_line_wording() {
    assert_eq!(range_line("\"a\"", "\"b\""), "DateRange { start: \"a\", end: \"b\" }");
    assert_eq!(range_line("", ""), "DateRange { start: , end:  }");
}

#[test]
fn debug_text_quotes_both_dates() {
    let range = DateRange::new("a".to_string(), "b".to_string());
    assert_eq!(range.debug_text(), "DateRange { start: \"a\", end: \"b\" }");
}

#[test]
fn debug_text_escapes() {
    let range = DateRange::new("say \"hi\"\n".to_string(), "back\\slash\ttab".to_string());
    assert_eq!(
        range.debug_text(),
        "DateRange { start: \"say \\\"hi\\\"\\n\", end: \"back\\\\slash\\ttab\" }"
    );
}

#[test]
fn debug_text_is_the_debug_form() {
    let pairs = [
        ("2024-01-01", "2024-12-31"),
        ("", ""),
        ("'single'", "\"double\""),
        ("\u{0}\u{7f}", "\u{00e9}\u{1F389}\u{200b}"),
        ("line\r\nbreak", "{ start: \"x\" }"),
    ];
    for (start, end) in pairs {
        let range = DateRange::new(start.to_string(), end.to_string());
        assert_eq!(range.debug_text(), format!("{:?}", range));
    }
}

#[test]
fn range_hands_out_its_dates() {
    let range = year_2024();
    assert_eq!(range.start(), "2024-01-01");
    assert_eq!(range.end(), "2024-12-31");
}
