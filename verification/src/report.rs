use vstd::prelude::*;

use crate::numfmt::{centi_of, parse_centi};
use crate::units::CENTI_LIMIT;

verus! {

/// The normalized result of one successful fetch. Every field the provider
/// may omit is filled with its default here, at the model boundary, so a
/// report always renders: strings fall back to `Unknown`, numbers to zero.
/// Temperatures and wind speed are hundredths (see `crate::units`).

#[verifier::external_type_specification]
#[verifier::external_body]
pub struct ExValue(serde_json::Value);

#[verifier::external_type_specification]
#[verifier::external_body]
pub struct ExNumber(serde_json::Number);

/// Whether a text parses as a JSON document.
pub uninterp spec fn json_doc_parses(s: Seq<char>) -> bool;

/// Relies on serde_json::from_str::<Value>: whether a text parses is a
/// function of the text alone.
#[verifier::external_body]
pub(crate) fn json_parse(s: &str) -> (r: Option<serde_json::Value>)
    ensures
        r is Some <==> json_doc_parses(s@),
{
    serde_json::from_str::<serde_json::Value>(s).ok()
}

/// Relies on serde_json's Value::get: the member of an object under a key,
/// if there is one. The value is opaque here, so nothing more is stated;
/// whatever comes back, the defaults below make the report total.
#[verifier::external_body]
fn get_member<'a>(v: &'a serde_json::Value, key: &str) -> (r: Option<&'a serde_json::Value>) {
    v.get(key)
}

/// Relies on serde_json's Value::get with an index: the element of an
/// array at a position, if there is one.
#[verifier::external_body]
fn get_element<'a>(v: &'a serde_json::Value, idx: usize) -> (r: Option<&'a serde_json::Value>) {
    v.get(idx)
}

/// Relies on serde_json's Value::as_str: the text of a JSON string, or
/// nothing when the value is not a string.
#[verifier::external_body]
fn value_as_string(v: &serde_json::Value) -> (r: Option<String>) {
    match v.as_str() {
        Some(s) => Some(s.to_string()),
        None => None,
    }
}

/// Relies on serde_json's Value::as_u64: the value of a JSON number that
/// is a non-negative integer in range, or nothing.
#[verifier::external_body]
fn value_as_u64(v: &serde_json::Value) -> (r: Option<u64>) {
    v.as_u64()
}

/// Relies on serde_json's Value::as_number: the number behind a JSON
/// number value, or nothing when the value is not a number.
#[verifier::external_body]
fn value_as_number<'a>(v: &'a serde_json::Value) -> (r: Option<&'a serde_json::Number>) {
    v.as_number()
}

/// Relies on serde_json's Display for Number: the decimal text of the
/// number, as it would stand in a JSON document.
#[verifier::external_body]
fn number_text(n: &serde_json::Number) -> (r: String) {
    n.to_string()
}

/// What a missing or non-string field displays as.
pub open spec fn string_or_unknown_spec(o: Option<Seq<char>>) -> Seq<char> {
    match o {
        Some(s) => s,
        None => "Unknown"@,
    }
}

/// A missing or non-string field displays as `Unknown`.
pub fn string_or_unknown(o: Option<String>) -> (r: String)
    ensures
        r@ == string_or_unknown_spec(o.deep_view()),
{
    match o {
        Some(s) => s,
        None => String::from_str("Unknown"),
    }
}

/// What a missing or non-integer field displays as.
pub open spec fn u64_or_zero_spec(o: Option<u64>) -> u64 {
    match o {
        Some(x) => x,
        None => 0u64,
    }
}

/// A missing or non-integer field displays as zero.
pub fn u64_or_zero(o: Option<u64>) -> (r: u64)
    ensures
        r == u64_or_zero_spec(o),
{
    match o {
        Some(x) => x,
        None => 0,
    }
}

/// The hundredths a number text stands for, zero when there is no text or
/// it is not a plain decimal.
pub open spec fn centi_of_text(o: Option<Seq<char>>) -> int {
    match o {
        Some(t) => match centi_of(t) {
            Some(v) => v,
            None => 0,
        },
        None => 0,
    }
}

/// A missing, malformed or out-of-range measurement defaults to zero
/// hundredths.
pub fn centi_or_zero(o: Option<String>) -> (r: i64)
    ensures
        r == centi_of_text(o.deep_view()),
        -CENTI_LIMIT <= r <= CENTI_LIMIT,
{
    match o {
        Some(s) => match parse_centi(s.as_str()) {
            Some(v) => v,
            None => 0,
        },
        None => 0,
    }
}

/// One fetched document's fields as plain optional values, before any
/// defaulting: text for the strings and the decimal measurements, numbers
/// for the integer ones. `None` stands for a field the document lacks or
/// holds with the wrong shape.
pub struct RawWeather {
    pub name: Option<String>,
    pub country: Option<String>,
    pub main: Option<String>,
    pub description: Option<String>,
    pub temp: Option<String>,
    pub feels_like: Option<String>,
    pub humidity: Option<u64>,
    pub sunrise: Option<u64>,
    pub sunset: Option<u64>,
    pub visibility: Option<u64>,
    pub wind_speed: Option<String>,
    pub wind_deg: Option<u64>,
    pub cloudiness: Option<u64>,
    pub pressure: Option<u64>,
    pub sea_level: Option<u64>,
    pub grnd_level: Option<u64>,
    pub temp_min: Option<String>,
    pub temp_max: Option<String>,
}

pub struct WeatherReport {
    pub name: String,
    pub country: String,
    pub main: String,
    pub description: String,
    pub temp: i64,
    pub feels_like: i64,
    pub humidity: u64,
    pub sunrise: u64,
    pub sunset: u64,
    pub visibility: u64,
    pub wind_speed: i64,
    pub wind_deg: u64,
    pub cloudiness: u64,
    pub pressure: u64,
    pub sea_level: u64,
    pub grnd_level: u64,
    pub temp_min: i64,
    pub temp_max: i64,
}

impl WeatherReport {
    /// Every measurement held in hundredths sits within the conversion
    /// bound, so unit conversion and rendering never overflow.
    pub open spec fn wf(self) -> bool {
        &&& -CENTI_LIMIT <= self.temp <= CENTI_LIMIT
        &&& -CENTI_LIMIT <= self.feels_like <= CENTI_LIMIT
        &&& -CENTI_LIMIT <= self.wind_speed <= CENTI_LIMIT
        &&& -CENTI_LIMIT <= self.temp_min <= CENTI_LIMIT
        &&& -CENTI_LIMIT <= self.temp_max <= CENTI_LIMIT
    }
}

fn member_string(v: &serde_json::Value, key: &str) -> Option<String> {
    match get_member(v, key) {
        Some(x) => value_as_string(x),
        None => None,
    }
}

fn member_u64(v: &serde_json::Value, key: &str) -> Option<u64> {
    match get_member(v, key) {
        Some(x) => value_as_u64(x),
        None => None,
    }
}

fn member_number_text(v: &serde_json::Value, key: &str) -> Option<String> {
    match get_member(v, key) {
        Some(x) => match value_as_number(x) {
            Some(n) => Some(number_text(n)),
            None => None,
        },
        None => None,
    }
}

fn nested<'a>(v: &'a serde_json::Value, k1: &str, k2: &str) -> Option<&'a serde_json::Value> {
    match get_member(v, k1) {
        Some(x) => get_member(x, k2),
        None => None,
    }
}

fn nested_string(v: &serde_json::Value, k1: &str, k2: &str) -> Option<String> {
    match nested(v, k1, k2) {
        Some(x) => value_as_string(x),
        None => None,
    }
}

fn nested_u64(v: &serde_json::Value, k1: &str, k2: &str) -> Option<u64> {
    match nested(v, k1, k2) {
        Some(x) => value_as_u64(x),
        None => None,
    }
}

fn nested_number_text(v: &serde_json::Value, k1: &str, k2: &str) -> Option<String> {
    match nested(v, k1, k2) {
        Some(x) => match value_as_number(x) {
            Some(n) => Some(number_text(n)),
            None => None,
        },
        None => None,
    }
}

/// The first entry of the `weather` array, where the provider keeps the
/// condition summary.
fn first_condition<'a>(v: &'a serde_json::Value) -> Option<&'a serde_json::Value> {
    match get_member(v, "weather") {
        Some(arr) => get_element(arr, 0),
        None => None,
    }
}

/// Picks every field of interest out of a provider document, converting
/// nothing: each is the member's text or number when it is there with the
/// right shape, else `None`. The document is opaque, so no more can be
/// said here; `extract_weather_report` pins what becomes of each field.
pub(crate) fn raw_from_document(v: &serde_json::Value) -> RawWeather {
    let condition = first_condition(v);
    let main = match condition {
        Some(c) => member_string(c, "main"),
        None => None,
    };
    let description = match condition {
        Some(c) => member_string(c, "description"),
        None => None,
    };
    RawWeather {
        name: member_string(v, "name"),
        country: nested_string(v, "sys", "country"),
        main,
        description,
        temp: nested_number_text(v, "main", "temp"),
        feels_like: nested_number_text(v, "main", "feels_like"),
        humidity: nested_u64(v, "main", "humidity"),
        sunrise: nested_u64(v, "sys", "sunrise"),
        sunset: nested_u64(v, "sys", "sunset"),
        visibility: member_u64(v, "visibility"),
        wind_speed: nested_number_text(v, "wind", "speed"),
        wind_deg: nested_u64(v, "wind", "deg"),
        cloudiness: nested_u64(v, "clouds", "all"),
        pressure: nested_u64(v, "main", "pressure"),
        sea_level: nested_u64(v, "main", "sea_level"),
        grnd_level: nested_u64(v, "main", "grnd_level"),
        temp_min: nested_number_text(v, "main", "temp_min"),
        temp_max: nested_number_text(v, "main", "temp_max"),
    }
}

/// Normalizes one document's raw fields into a report, filling every
/// absent or unreadable field with its default: strings become `Unknown`,
/// numbers zero, decimal texts their hundredths value or zero. Field by
/// field, the report is exactly the defaulted raw value.
pub fn extract_weather_report(raw: RawWeather) -> (r: WeatherReport)
    ensures
        r.name@ == string_or_unknown_spec(raw.name.deep_view()),
        r.country@ == string_or_unknown_spec(raw.country.deep_view()),
        r.main@ == string_or_unknown_spec(raw.main.deep_view()),
        r.description@ == string_or_unknown_spec(raw.description.deep_view()),
        r.temp == centi_of_text(raw.temp.deep_view()),
        r.feels_like == centi_of_text(raw.feels_like.deep_view()),
        r.humidity == u64_or_zero_spec(raw.humidity),
        r.sunrise == u64_or_zero_spec(raw.sunrise),
        r.sunset == u64_or_zero_spec(raw.sunset),
        r.visibility == u64_or_zero_spec(raw.visibility),
        r.wind_speed == centi_of_text(raw.wind_speed.deep_view()),
        r.wind_deg == u64_or_zero_spec(raw.wind_deg),
        r.cloudiness == u64_or_zero_spec(raw.cloudiness),
        r.pressure == u64_or_zero_spec(raw.pressure),
        r.sea_level == u64_or_zero_spec(raw.sea_level),
        r.grnd_level == u64_or_zero_spec(raw.grnd_level),
        r.temp_min == centi_of_text(raw.temp_min.deep_view()),
        r.temp_max == centi_of_text(raw.temp_max.deep_view()),
        r.wf(),
{
    WeatherReport {
        name: string_or_unknown(raw.name),
        country: string_or_unknown(raw.country),
        main: string_or_unknown(raw.main),
        description: string_or_unknown(raw.description),
        temp: centi_or_zero(raw.temp),
        feels_like: centi_or_zero(raw.feels_like),
        humidity: u64_or_zero(raw.humidity),
        sunrise: u64_or_zero(raw.sunrise),
        sunset: u64_or_zero(raw.sunset),
        visibility: u64_or_zero(raw.visibility),
        wind_speed: centi_or_zero(raw.wind_speed),
        wind_deg: u64_or_zero(raw.wind_deg),
        cloudiness: u64_or_zero(raw.cloudiness),
        pressure: u64_or_zero(raw.pressure),
        sea_level: u64_or_zero(raw.sea_level),
        grnd_level: u64_or_zero(raw.grnd_level),
        temp_min: centi_or_zero(raw.temp_min),
        temp_max: centi_or_zero(raw.temp_max),
    }
}

} // verus!
