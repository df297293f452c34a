//! The date range and the holiday record.

use crate::diagnostics::{range_line, range_text};
use crate::host::{
    decode_strings, decoded, encode_strings, encoded, DecodingError, HostValue, HostView, Slot,
};
use crate::text::{debug_quoted, quote};
use vstd::prelude::*;

verus! {

/// The mathematical content of a [`DateRange`].
pub struct DateRangeView {
    pub start: Seq<char>,
    pub end: Seq<char>,
}

/// A scheduling window: two dates as free-form text, neither validated.
#[derive(Debug)]
pub struct DateRange {
    start: String,
    end: String,
}

impl View for DateRange {
    type V = DateRangeView;

    closed spec fn view(&self) -> DateRangeView {
        DateRangeView { start: self.start@, end: self.end@ }
    }
}

impl DateRange {
    /// A range from `start` to `end`; any two strings are accepted.
    pub fn new(start: String, end: String) -> (range: DateRange)
        ensures
            range@ == (DateRangeView { start: start@, end: end@ }),
    {
        DateRange { start, end }
    }

    /// The first date of the range, as given.
    pub fn start(&self) -> (out: String)
        ensures
            out@ == self@.start,
    {
        self.start.clone()
    }

    /// The last date of the range, as given.
    pub fn end(&self) -> (out: String)
        ensures
            out@ == self@.end,
    {
        self.end.clone()
    }

    /// The range as one line of text that names both dates, each in quoted
    /// form.
    pub fn debug_text(&self) -> (out: String)
        ensures
            out@ == range_text(debug_quoted(self@.start), debug_quoted(self@.end)),
    {
        let start_quoted = quote(self.start.as_str());
        let end_quoted = quote(self.end.as_str());
        range_line(start_quoted.as_str(), end_quoted.as_str())
    }
}

/// The mathematical content of a holiday record.
pub struct HolidayView {
    pub date: Seq<char>,
    pub local_name: Option<Seq<char>>,
    pub name: Option<Seq<char>>,
    pub country_code: Option<Seq<char>>,
    pub fixed: Option<bool>,
    pub global: bool,
    pub counties: Option<Seq<Seq<char>>>,
    pub launch_year: Option<i32>,
    pub types: Option<Seq<Seq<char>>>,
}

/// The fields of one public holiday, as plain typed values.
#[derive(Debug)]
pub struct InternalPublicHolidayV3Dto {
    pub date: String,
    pub local_name: Option<String>,
    pub name: Option<String>,
    pub country_code: Option<String>,
    pub fixed: Option<bool>,
    pub global: bool,
    pub counties: Option<Vec<String>>,
    pub launch_year: Option<i32>,
    pub types: Option<Vec<String>>,
}

impl View for InternalPublicHolidayV3Dto {
    type V = HolidayView;

    open spec fn view(&self) -> HolidayView {
        HolidayView {
            date: self.date@,
            local_name: self.local_name.deep_view(),
            name: self.name.deep_view(),
            country_code: self.country_code.deep_view(),
            fixed: self.fixed,
            global: self.global,
            counties: self.counties.deep_view(),
            launch_year: self.launch_year,
            types: self.types.deep_view(),
        }
    }
}

/// What constructing a record from the given parts yields: the record's
/// content, or the error of the first slot that cannot be decoded, counties
/// before types.
pub open spec fn holiday_from_parts(
    date: Seq<char>,
    local_name: Option<Seq<char>>,
    name: Option<Seq<char>>,
    country_code: Option<Seq<char>>,
    fixed: Option<bool>,
    global: bool,
    counties: HostView,
    launch_year: Option<i32>,
    types: HostView,
) -> Result<HolidayView, DecodingError> {
    match (decoded(counties), decoded(types)) {
        (None, _) => Err(DecodingError { slot: Slot::Counties }),
        (Some(_), None) => Err(DecodingError { slot: Slot::Types }),
        (Some(counties_list), Some(types_list)) => Ok(
            HolidayView {
                date,
                local_name,
                name,
                country_code,
                fixed,
                global,
                counties: counties_list,
                launch_year,
                types: types_list,
            },
        ),
    }
}

/// One public holiday. It is built once from what the host supplies and
/// never changes afterwards; every accessor hands out a copy.
pub struct PublicHolidayV3Dto {
    inner: InternalPublicHolidayV3Dto,
}

impl View for PublicHolidayV3Dto {
    type V = HolidayView;

    closed spec fn view(&self) -> HolidayView {
        self.inner@
    }
}

impl PublicHolidayV3Dto {
    /// Builds a record from the host's arguments.
    ///
    /// The two dynamic slots are decoded, counties first: null and undefined
    /// become an absent list, a sequence of strings is kept, and any other
    /// value fails the construction with the slot's error. Every other
    /// argument is stored as given.
    pub fn new(
        date: String,
        local_name: Option<String>,
        name: Option<String>,
        country_code: Option<String>,
        fixed: Option<bool>,
        global: bool,
        counties: HostValue,
        launch_year: Option<i32>,
        types: HostValue,
    ) -> (out: Result<PublicHolidayV3Dto, DecodingError>)
        ensures
            out is Err <==> (counties@ is Other || types@ is Other),
            match out {
                Ok(holiday) => Ok::<HolidayView, DecodingError>(holiday@),
                Err(error) => Err(error),
            } == holiday_from_parts(
                date@,
                local_name.deep_view(),
                name.deep_view(),
                country_code.deep_view(),
                fixed,
                global,
                counties@,
                launch_year,
                types@,
            ),
    {
        let counties_list = match decode_strings(counties, Slot::Counties) {
            Ok(list) => list,
            Err(error) => {
                return Err(error);
            },
        };
        let types_list = match decode_strings(types, Slot::Types) {
            Ok(list) => list,
            Err(error) => {
                return Err(error);
            },
        };
        Ok(
            PublicHolidayV3Dto {
                inner: InternalPublicHolidayV3Dto {
                    date,
                    local_name,
                    name,
                    country_code,
                    fixed,
                    global,
                    counties: counties_list,
                    launch_year,
                    types: types_list,
                },
            },
        )
    }

    /// The date, as given at construction.
    pub fn date(&self) -> (out: String)
        ensures
            out@ == self@.date,
    {
        self.inner.date.clone()
    }

    /// The holiday's name in the local language, if it has one.
    pub fn local_name(&self) -> (out: Option<String>)
        ensures
            out.deep_view() == self@.local_name,
    {
        self.inner.local_name.clone()
    }

    /// The holiday's name, if it has one.
    pub fn name(&self) -> (out: Option<String>)
        ensures
            out.deep_view() == self@.name,
    {
        self.inner.name.clone()
    }

    /// The country code, if it has one.
    pub fn country_code(&self) -> (out: Option<String>)
        ensures
            out.deep_view() == self@.country_code,
    {
        self.inner.country_code.clone()
    }

    /// Whether the holiday falls on the same date every year, if known.
    pub fn fixed(&self) -> (out: Option<bool>)
        ensures
            out == self@.fixed,
    {
        self.inner.fixed
    }

    /// Whether the holiday is observed in the whole country.
    pub fn global(&self) -> (out: bool)
        ensures
            out == self@.global,
    {
        self.inner.global
    }

    /// The counties in the host's representation: null where the list is
    /// absent, else the sequence of its members.
    pub fn counties(&self) -> (out: HostValue)
        ensures
            out@ == encoded(self@.counties),
    {
        encode_strings(&self.inner.counties)
    }

    /// The year in which the holiday was first observed, if known.
    pub fn launch_year(&self) -> (out: Option<i32>)
        ensures
            out == self@.launch_year,
    {
        self.inner.launch_year
    }

    /// The holiday's types in the host's representation: null where the list
    /// is absent, else the sequence of its members.
    pub fn types(&self) -> (out: HostValue)
        ensures
            out@ == encoded(self@.types),
    {
        encode_strings(&self.inner.types)
    }
}

/// Round trip: a record built with a sequence of strings as its counties
/// reads that same sequence back from its counties. Whether the record is
/// built at all is then up to the types alone.
pub proof fn lemma_counties_round_trip(
    date: Seq<char>,
    local_name: Option<Seq<char>>,
    name: Option<Seq<char>>,
    country_code: Option<Seq<char>>,
    fixed: Option<bool>,
    global: bool,
    counties: Seq<Seq<char>>,
    launch_year: Option<i32>,
    types: HostView,
)
    ensures
        match holiday_from_parts(
            date,
            local_name,
            name,
            country_code,
            fixed,
            global,
            HostView::Strings(counties),
            launch_year,
            types,
        ) {
            Ok(holiday) => encoded(holiday.counties) == HostView::Strings(counties),
            Err(error) => decoded(types) is None,
        },
{
}

/// Absence is canonical: a record built with null or undefined as its
/// counties reads null back from its counties, never an empty sequence.
pub proof fn lemma_absent_counties_read_as_null(
    date: Seq<char>,
    local_name: Option<Seq<char>>,
    name: Option<Seq<char>>,
    country_code: Option<Seq<char>>,
    fixed: Option<bool>,
    global: bool,
    counties: HostView,
    launch_year: Option<i32>,
    types: HostView,
)
    requires
        counties is Null || counties is Undefined,
    ensures
        match holiday_from_parts(
            date,
            local_name,
            name,
            country_code,
            fixed,
            global,
            counties,
            launch_year,
            types,
        ) {
            Ok(holiday) => encoded(holiday.counties) == HostView::Null,
            Err(error) => decoded(types) is None,
        },
{
}

/// A record's date and its global flag are exactly those that it was built
/// with.
pub proof fn lemma_date_and_global_kept(
    date: Seq<char>,
    local_name: Option<Seq<char>>,
    name: Option<Seq<char>>,
    country_code: Option<Seq<char>>,
    fixed: Option<bool>,
    global: bool,
    counties: HostView,
    launch_year: Option<i32>,
    types: HostView,
)
    ensures
        match holiday_from_parts(
            date,
            local_name,
            name,
            country_code,
            fixed,
            global,
            counties,
            launch_year,
            types,
        ) {
            Ok(holiday) => holiday.date == date && holiday.global == global,
            Err(error) => decoded(counties) is None || decoded(types) is None,
        },
{
}

} // verus!
