use vstd::prelude::*;

use crate::numfmt::{dec_str, u64_to_string};
use crate::report::{
    extract_weather_report, json_doc_parses, json_parse, raw_from_document, WeatherReport,
};

verus! {

/// One remote lookup per requested city. The transport work itself lives
/// with the caller; this module owns the request text and the reading of
/// whatever came back, so that one city's failure is nothing more than a
/// `Failure` value and the next city proceeds untouched.

/// What the transport handed back for one city: a response, or no
/// response at all (timeout, connection, name resolution).
pub enum FetchInput {
    Response { status: u16, body: String },
    Transport { message: String },
}

/// The per-city result: a normalized report, or the city and a reason.
pub enum FetchOutcome {
    Success(WeatherReport),
    Failure { city: String, reason: String },
}

/// The provider lookup for a city, with the caller's credential.
pub open spec fn request_url_spec(city: Seq<char>, credential: Seq<char>) -> Seq<char> {
    "http://api.openweathermap.org/data/2.5/weather?q="@ + city + "&appid="@ + credential
}

pub fn build_request_url(city: &str, credential: &str) -> (r: String)
    ensures
        r@ == request_url_spec(city@, credential@),
{
    let mut out = String::from_str("http://api.openweathermap.org/data/2.5/weather?q=");
    out.append(city);
    out.append("&appid=");
    out.append(credential);
    out
}

/// A success status, as HTTP has it.
pub open spec fn status_success(status: u16) -> bool {
    200 <= status < 300
}

pub open spec fn status_fail_reason(city: Seq<char>, status: u16) -> Seq<char> {
    "Failed to fetch weather data for "@ + city + ": "@ + dec_str(status as nat)
}

pub open spec fn parse_fail_reason(city: Seq<char>) -> Seq<char> {
    "Failed to parse weather data for "@ + city
}

/// What one city's outcome must be for one transport result: each failure
/// names the city and its exact reason, and a parsed body gives a
/// well-formed report. The relation mentions only this city's input, so
/// no other city's fate can enter it.
pub open spec fn outcome_matches(city: Seq<char>, input: FetchInput, r: FetchOutcome) -> bool {
    match input {
        FetchInput::Transport { message } => match r {
            FetchOutcome::Failure { city: c, reason } => c@ == city && reason@ == message@,
            _ => false,
        },
        FetchInput::Response { status, body } => {
            if !status_success(status) {
                match r {
                    FetchOutcome::Failure { city: c, reason } => c@ == city && reason@
                        == status_fail_reason(city, status),
                    _ => false,
                }
            } else if !json_doc_parses(body@) {
                match r {
                    FetchOutcome::Failure { city: c, reason } => c@ == city && reason@
                        == parse_fail_reason(city),
                    _ => false,
                }
            } else {
                match r {
                    FetchOutcome::Success(rep) => rep.wf(),
                    _ => false,
                }
            }
        },
    }
}

/// Reads one city's transport result into its outcome. A missing
/// response, a non-success status and an unparseable body each name the
/// city and the reason; a parsed body always normalizes into a report.
pub fn fetch_outcome(city: &str, input: &FetchInput) -> (r: FetchOutcome)
    ensures
        outcome_matches(city@, *input, r),
{
    match input {
        FetchInput::Transport { message } => FetchOutcome::Failure {
            city: city.to_owned(),
            reason: message.clone(),
        },
        FetchInput::Response { status, body } => {
            let status = *status;
            if !(200 <= status && status < 300) {
                let mut reason = String::from_str("Failed to fetch weather data for ");
                reason.append(city);
                reason.append(": ");
                let num = u64_to_string(status as u64);
                reason.append(num.as_str());
                FetchOutcome::Failure { city: city.to_owned(), reason }
            } else {
                match json_parse(body.as_str()) {
                    Some(doc) => FetchOutcome::Success(
                        extract_weather_report(raw_from_document(&doc)),
                    ),
                    None => {
                        let mut reason = String::from_str("Failed to parse weather data for ");
                        reason.append(city);
                        FetchOutcome::Failure { city: city.to_owned(), reason }
                    },
                }
            }
        },
    }
}

/// One outcome per requested city, in request order, each satisfying its
/// own city's relation alone: an earlier failure leaves no trace on any
/// later city's outcome.
pub fn fetch_outcomes(items: &Vec<(String, FetchInput)>) -> (r: Vec<FetchOutcome>)
    ensures
        r.len() == items.len(),
        forall|i: int|
            0 <= i < items@.len() ==> outcome_matches(
                items@[i].0@,
                items@[i].1,
                #[trigger] r@[i],
            ),
{
    let mut out: Vec<FetchOutcome> = Vec::new();
    let mut i: usize = 0;
    while i < items.len()
        invariant
            0 <= i <= items.len(),
            out.len() == i,
            forall|j: int|
                0 <= j < i ==> outcome_matches(items@[j].0@, items@[j].1, #[trigger] out@[j]),
        decreases items.len() - i,
    {
        let pair = &items[i];
        let o = fetch_outcome(pair.0.as_str(), &pair.1);
        out.push(o);
        i = i + 1;
    }
    out
}

} // verus!
