//! A forecast page of tenki.jp and the forecast that it shows.

use crate::html::{
    all_texts, find_text, first_attr, first_text, found_text, get_attr, get_text, get_texts,
    parse_document, parsed_document,
};
use crate::icon::{file_stem, get_stem};
use crate::models::forecast::{Forecast, ForecastView};
use crate::models::temp_diff::TempDiff;
use crate::number::{parse_i16, parsed_i16};
use crate::text::{before_marker, strip_diff_marks, text_before, without_diff_marks};
use scraper::Html;
use vstd::prelude::*;

verus! {

/// Why a page gives no forecast.
#[derive(Debug, Clone, Copy, PartialEq, Eq, Structural)]
pub enum ExtractionError {
    /// The page has no element for a temperature or for its change.
    MissingRequiredField,
    /// The text of a temperature or of its change writes no number.
    UnparseableNumber,
}

/// The name of the place in the heading of a page: what stands before
/// `の天気`.
pub open spec fn place_of(heading: Seq<char>) -> Seq<char> {
    text_before(heading, "の天気"@)
}

/// The time of issue in the date line of a page: what stands before `発表`.
pub open spec fn issued_at_of(line: Seq<char>) -> Seq<char> {
    text_before(line, "発表"@)
}

/// The code of the weather icon whose image has the address `src`: the stem
/// of the file that the address names; that of the empty address where the
/// page shows no icon.
pub open spec fn icon_name_of(src: Option<Seq<char>>) -> Seq<char> {
    match src {
        Some(address) => file_stem(address),
        None => file_stem(Seq::empty()),
    }
}

/// The temperature that the text of its element writes. It is an error for
/// the element to be missing and for its text to write no 16-bit number.
pub open spec fn temperature_of(text: Option<Seq<char>>) -> Result<int, ExtractionError> {
    match text {
        Some(t) => match parsed_i16(t) {
            Some(degrees) => Ok(degrees as int),
            None => Err(ExtractionError::UnparseableNumber),
        },
        None => Err(ExtractionError::MissingRequiredField),
    }
}

/// The change of a temperature that the text of its element writes between
/// the marks `[`, `+` and `]`, such as `[+3]` or `[-5]`.
pub open spec fn temp_diff_of(text: Option<Seq<char>>) -> Result<int, ExtractionError> {
    match text {
        Some(t) => temperature_of(Some(without_diff_marks(t))),
        None => Err(ExtractionError::MissingRequiredField),
    }
}

/// What the lookups find on a page, before any of it is read as a place, a
/// time or a number.
#[derive(Debug, PartialEq, Eq)]
pub struct PageFields {
    /// The text of the heading, which names the place.
    pub heading: String,
    /// The text of the date line, which gives the time of issue.
    pub date_line: String,
    /// The names of the special warnings; `None` where the page shows none.
    pub special_warnings: Option<Vec<String>>,
    /// The names of the warnings; `None` where the page shows none.
    pub warnings: Option<Vec<String>>,
    /// The names of the advisories; `None` where the page shows none.
    pub alerts: Option<Vec<String>>,
    /// The weather in a word or two.
    pub weather: String,
    /// The address of the image of the weather icon; `None` where the page
    /// shows none.
    pub icon_address: Option<String>,
    /// The text of the highest temperature; `None` where its element is
    /// missing.
    pub high_temp: Option<String>,
    /// The text of the change of the highest temperature.
    pub high_temp_diff: Option<String>,
    /// The text of the lowest temperature.
    pub low_temp: Option<String>,
    /// The text of the change of the lowest temperature.
    pub low_temp_diff: Option<String>,
}

/// What [`PageFields`] hold, as mathematical values.
pub struct PageFieldsView {
    pub heading: Seq<char>,
    pub date_line: Seq<char>,
    pub special_warnings: Option<Seq<Seq<char>>>,
    pub warnings: Option<Seq<Seq<char>>>,
    pub alerts: Option<Seq<Seq<char>>>,
    pub weather: Seq<char>,
    pub icon_address: Option<Seq<char>>,
    pub high_temp: Option<Seq<char>>,
    pub high_temp_diff: Option<Seq<char>>,
    pub low_temp: Option<Seq<char>>,
    pub low_temp_diff: Option<Seq<char>>,
}

impl View for PageFields {
    type V = PageFieldsView;

    open spec fn view(&self) -> PageFieldsView {
        PageFieldsView {
            heading: self.heading@,
            date_line: self.date_line@,
            special_warnings: self.special_warnings.deep_view(),
            warnings: self.warnings.deep_view(),
            alerts: self.alerts.deep_view(),
            weather: self.weather@,
            icon_address: self.icon_address.deep_view(),
            high_temp: self.high_temp.deep_view(),
            high_temp_diff: self.high_temp_diff.deep_view(),
            low_temp: self.low_temp.deep_view(),
            low_temp_diff: self.low_temp_diff.deep_view(),
        }
    }
}

/// What the lookups find in the document `html`: each field under its
/// selector.
pub open spec fn fields_of(html: Html) -> PageFieldsView {
    PageFieldsView {
        heading: first_text(html, "h2"@),
        date_line: first_text(html, ".date-time"@),
        special_warnings: all_texts(html, ".special-warn-entry"@),
        warnings: all_texts(html, ".warn-entry"@),
        alerts: all_texts(html, ".alert-entry"@),
        weather: first_text(html, ".weather-telop"@),
        icon_address: first_attr(html, ".weather-icon > img "@, "src"@),
        high_temp: found_text(html, "dd.high-temp > .value"@),
        high_temp_diff: found_text(html, "dd.high-temp.tempdiff"@),
        low_temp: found_text(html, "dd.low-temp > .value"@),
        low_temp_diff: found_text(html, "dd.low-temp.tempdiff"@),
    }
}

/// The forecast that the fields of a page give. The two temperatures and
/// their changes are required; of these the first that cannot be read, in the
/// order highest, its change, lowest, its change, gives the error. Every
/// other field is taken as it is found.
pub open spec fn assembled(fields: PageFieldsView) -> Result<ForecastView, ExtractionError> {
    match temperature_of(fields.high_temp) {
        Err(e) => Err(e),
        Ok(high_temp) => match temp_diff_of(fields.high_temp_diff) {
            Err(e) => Err(e),
            Ok(high_temp_diff) => match temperature_of(fields.low_temp) {
                Err(e) => Err(e),
                Ok(low_temp) => match temp_diff_of(fields.low_temp_diff) {
                    Err(e) => Err(e),
                    Ok(low_temp_diff) => Ok(
                        ForecastView {
                            place: place_of(fields.heading),
                            date_time: issued_at_of(fields.date_line),
                            special_warnings: fields.special_warnings,
                            warnings: fields.warnings,
                            alerts: fields.alerts,
                            weather: fields.weather,
                            weather_icon_name: icon_name_of(fields.icon_address),
                            high_temp,
                            high_temp_diff,
                            low_temp,
                            low_temp_diff,
                        },
                    ),
                },
            },
        },
    }
}

/// The forecast that the document `html` shows: the one that its fields
/// give.
pub open spec fn extracted(html: Html) -> Result<ForecastView, ExtractionError> {
    assembled(fields_of(html))
}

/// The view of a forecast or the error in its place.
pub open spec fn outcome(forecast: Result<Forecast, ExtractionError>) -> Result<
    ForecastView,
    ExtractionError,
> {
    match forecast {
        Ok(f) => Ok(f@),
        Err(e) => Err(e),
    }
}

/// The name of the place in the heading of a page.
pub fn place_from(heading: &str) -> (place: String)
    ensures
        place@ == place_of(heading@),
{
    before_marker(heading, "の天気")
}

/// The time of issue in the date line of a page.
pub fn issued_at_from(line: &str) -> (issued_at: String)
    ensures
        issued_at@ == issued_at_of(line@),
{
    before_marker(line, "発表")
}

/// The code of the weather icon whose image has the address `src`.
pub fn icon_name_from(src: &Option<String>) -> (name: String)
    ensures
        name@ == icon_name_of(src.deep_view()),
{
    match src {
        Some(address) => get_stem(address.as_str()),
        None => {
            proof {
                reveal_strlit("");
                assert(""@ =~= Seq::<char>::empty());
            }
            get_stem("")
        },
    }
}

/// The temperature that the text of its element writes.
pub fn temperature_from(text: &Option<String>) -> (degrees: Result<i16, ExtractionError>)
    ensures
        match degrees {
            Ok(d) => temperature_of(text.deep_view()) == Ok::<int, ExtractionError>(d as int),
            Err(e) => temperature_of(text.deep_view()) == Err::<int, ExtractionError>(e),
        },
{
    match text {
        Some(t) => match parse_i16(t.as_str()) {
            Some(d) => Ok(d),
            None => Err(ExtractionError::UnparseableNumber),
        },
        None => Err(ExtractionError::MissingRequiredField),
    }
}

/// The change of a temperature that the text of its element writes.
pub fn temp_diff_from(text: &Option<String>) -> (diff: Result<TempDiff, ExtractionError>)
    ensures
        match diff {
            Ok(d) => temp_diff_of(text.deep_view()) == Ok::<int, ExtractionError>(d@),
            Err(e) => temp_diff_of(text.deep_view()) == Err::<int, ExtractionError>(e),
        },
{
    match text {
        Some(t) => {
            let bare = strip_diff_marks(t.as_str());
            match TempDiff::parse(bare.as_str()) {
                Some(d) => Ok(d),
                None => Err(ExtractionError::UnparseableNumber),
            }
        },
        None => Err(ExtractionError::MissingRequiredField),
    }
}

/// What the lookups find in the document `html`.
pub fn read_fields(html: &Html) -> (fields: PageFields)
    ensures
        fields@ == fields_of(*html),
{
    PageFields {
        heading: get_text(html, "h2"),
        date_line: get_text(html, ".date-time"),
        special_warnings: get_texts(html, ".special-warn-entry"),
        warnings: get_texts(html, ".warn-entry"),
        alerts: get_texts(html, ".alert-entry"),
        weather: get_text(html, ".weather-telop"),
        icon_address: get_attr(html, ".weather-icon > img ", "src"),
        high_temp: find_text(html, "dd.high-temp > .value"),
        high_temp_diff: find_text(html, "dd.high-temp.tempdiff"),
        low_temp: find_text(html, "dd.low-temp > .value"),
        low_temp_diff: find_text(html, "dd.low-temp.tempdiff"),
    }
}

/// The forecast that the fields of a page give.
pub fn assemble(fields: PageFields) -> (forecast: Result<Forecast, ExtractionError>)
    ensures
        outcome(forecast) == assembled(fields@),
{
    let high_temp = temperature_from(&fields.high_temp)?;
    let high_temp_diff = temp_diff_from(&fields.high_temp_diff)?;
    let low_temp = temperature_from(&fields.low_temp)?;
    let low_temp_diff = temp_diff_from(&fields.low_temp_diff)?;
    Ok(
        Forecast {
            place: place_from(fields.heading.as_str()),
            date_time: issued_at_from(fields.date_line.as_str()),
            special_warnings: fields.special_warnings,
            warnings: fields.warnings,
            alerts: fields.alerts,
            weather: fields.weather,
            weather_icon_name: icon_name_from(&fields.icon_address),
            high_temp,
            high_temp_diff,
            low_temp,
            low_temp_diff,
        },
    )
}

/// The forecast that the document `html` shows. A tier of advisories that
/// it holds is never empty.
pub fn extract(html: &Html) -> (forecast: Result<Forecast, ExtractionError>)
    ensures
        outcome(forecast) == extracted(*html),
        forecast matches Ok(f) ==> f@.well_formed(),
{
    assemble(read_fields(html))
}

/// The forecast that the page with the source text `doc` shows.
pub fn parse_forecast(doc: &str) -> (forecast: Result<Forecast, ExtractionError>)
    ensures
        outcome(forecast) == extracted(parsed_document(doc@)),
        forecast matches Ok(f) ==> f@.well_formed(),
{
    let html = parse_document(doc);
    extract(&html)
}

/// A page as it was fetched: the status of the response and the document.
#[derive(Debug)]
pub struct TenkiJpForecast {
    status: u16,
    html: Html,
}

impl TenkiJpForecast {
    /// The document of the page.
    pub closed spec fn html(&self) -> Html {
        self.html
    }

    /// The status code that the page came with.
    pub closed spec fn status_code(&self) -> u16 {
        self.status
    }

    /// The page that came with the status code `status` and the source text
    /// `body`.
    pub fn new(status: u16, body: &str) -> (page: Self)
        ensures
            page.status_code() == status,
            page.html() == parsed_document(body@),
    {
        Self { status, html: parse_document(body) }
    }

    /// The status code that the page came with.
    pub fn status(&self) -> (status: u16)
        ensures
            status == self.status_code(),
    {
        self.status
    }

    /// The forecast that the page shows.
    pub fn parse(&self) -> (forecast: Result<Forecast, ExtractionError>)
        ensures
            outcome(forecast) == extracted(self.html()),
            forecast matches Ok(f) ==> f@.well_formed(),
    {
        extract(&self.html)
    }

    /// The trimmed text of the first element that `selector` matches; empty
    /// where it matches nothing.
    pub fn get_text(&self, selector: &str) -> (text: String)
        ensures
            text@ == first_text(self.html(), selector@),
    {
        get_text(&self.html, selector)
    }

    /// The trimmed texts of all elements that `selector` matches; `None`
    /// where it matches nothing.
    pub fn get_texts(&self, selector: &str) -> (found: Option<Vec<String>>)
        ensures
            found.deep_view() == all_texts(self.html(), selector@),
    {
        get_texts(&self.html, selector)
    }

    /// The code of the weather icon that the attribute `attr` of the first
    /// element that `selector` matches names as a file.
    pub fn get_weather_icon_name(&self, selector: &str, attr: &str) -> (name: String)
        ensures
            name@ == icon_name_of(first_attr(self.html(), selector@, attr@)),
    {
        let weather_icon_path = self.get_attr(selector, attr);
        icon_name_from(&weather_icon_path)
    }

    /// The value of the attribute `attr` of the first element that
    /// `selector` matches.
    pub fn get_attr(&self, selector: &str, attr: &str) -> (value: Option<String>)
        ensures
            value.deep_view() == first_attr(self.html(), selector@, attr@),
    {
        get_attr(&self.html, selector, attr)
    }

    /// The stem of the file that `path` names.
    pub fn get_file_stem(path: &str) -> (stem: String)
        ensures
            stem@ == file_stem(path@),
    {
        get_stem(path)
    }
}

/// The fields of a page give a forecast exactly where both temperatures and
/// both changes can be read, and a tier of the forecast is a tier of the
/// page.
pub proof fn lemma_forecast_where_temperatures_read(fields: PageFieldsView)
    ensures
        assembled(fields) is Ok <==> temperature_of(fields.high_temp) is Ok && temp_diff_of(
            fields.high_temp_diff,
        ) is Ok && temperature_of(fields.low_temp) is Ok && temp_diff_of(fields.low_temp_diff) is Ok,
        assembled(fields) matches Ok(f) ==> f.special_warnings == fields.special_warnings
            && f.warnings == fields.warnings && f.alerts == fields.alerts,
{
}

} // verus!
