//! The OpenWeatherMap backend: request URL, and the walk of the JSON
//! response for `main.temp` and `weather[0].description`.
//!
//! JSON parsing and the walk over its opaque tree are the
//! `rustc_serialize` crate's work; both walks depend on the body text
//! alone, so each carries a named result, and the report is stated
//! exactly over those names.
use vstd::prelude::*;

use rustc_serialize::json::Json;

use crate::types::{TempUnit, WeatherInfo, WeatherResult};

verus! {

/// The number under two nested object keys of a JSON document,
/// truncated toward zero to an `i8` (saturating at the type's bounds);
/// nothing when the document does not parse or the path is not a
/// number.
pub uninterp spec fn json_temp_of(body: Seq<char>, sect: Seq<char>, key: Seq<char>) -> Option<i8>;

/// Relies on rustc_serialize::json::Json::from_str, Json::find and
/// Json::as_f64: parses the body and reads the number under
/// `sect.key`. The result depends on the arguments alone, so it is
/// `json_temp_of`; the cast keeps the truncation the report needs.
#[verifier::external_body]
fn json_temp(body: &str, sect: &str, key: &str) -> (r: Option<i8>)
    ensures
        r == json_temp_of(body@, sect@, key@),
{
    let j = Json::from_str(body).ok()?;
    j.find(sect)?.find(key)?.as_f64().map(|t| t as i8)
}

/// The text under a field of the first element of an array key of a
/// JSON document; nothing when the document does not parse, the array
/// is missing or empty, or the field is not a string.
pub uninterp spec fn json_first_text_of(
    body: Seq<char>,
    list: Seq<char>,
    field: Seq<char>,
) -> Option<String>;

/// Relies on rustc_serialize::json::Json::from_str, Json::find,
/// Json::as_array and Json::as_string: parses the body and reads the
/// string under `list[0].field`. The result depends on the arguments
/// alone, so it is `json_first_text_of`.
#[verifier::external_body]
fn json_first_text(body: &str, list: &str, field: &str) -> (r: Option<String>)
    ensures
        r == json_first_text_of(body@, list@, field@),
{
    let j = Json::from_str(body).ok()?;
    let first = j.find(list)?.as_array()?.get(0)?;
    first.find(field)?.as_string().map(|s| s.to_owned())
}

/// The two values the walk of an OpenWeatherMap body yields: the first
/// weather entry's description, and `main.temp` in whole degrees.
pub open spec fn owm_fields_of(body: Seq<char>) -> (Option<String>, Option<i8>) {
    (
        json_first_text_of(body, "weather"@, "description"@),
        json_temp_of(body, "main"@, "temp"@),
    )
}

/// The report the backend builds once the walk has yielded a
/// description and degrees; the unit is the one the query asked for.
pub open spec fn owm_info(description: String, degrees: i8, units: TempUnit) -> WeatherInfo {
    WeatherInfo { status: description, degrees, unit: units }
}

/// Walks a parsed response for `main.temp` and `weather[0].description`
/// and builds the report; any missing piece is the backend's generic
/// failure.
fn parse_weather(raw: &str, units: TempUnit) -> (r: WeatherResult)
    ensures
        r is Err ==> r->Err_0@ == "Foo!"@,
        match owm_fields_of(raw@) {
            (Some(d), Some(t)) => r is Ok && r->Ok_0 == owm_info(d, t, units),
            _ => r is Err,
        },
{
    let description = json_first_text(raw, "weather", "description");
    let temperature = json_temp(raw, "main", "temp");
    match (description, temperature) {
        (Some(d), Some(t)) => {
            let ghost gd = d;
            let w = WeatherInfo::new(d, t, units);
            proof {
                assert(w == owm_info(gd, t, units));
            }
            Ok(w)
        },
        _ => Err("Foo!".to_owned()),
    }
}

/// The query URL of the OpenWeatherMap backend for a city and unit.
pub open spec fn owm_url_spec(city: Seq<char>, units: TempUnit) -> Seq<char> {
    "http://api.openweathermap.org/data/2.5/weather?lang=ru&id="@ + city + "&units="@ + (
    if units is Celsius {
        "metric"@
    } else {
        "imperial"@
    })
}

/// Builds the query URL of the OpenWeatherMap backend.
pub fn owm_url(city: &str, units: TempUnit) -> (r: String)
    ensures
        r@ == owm_url_spec(city@, units),
{
    let mut s = "http://api.openweathermap.org/data/2.5/weather?lang=ru&id=".to_owned();
    s.append(city);
    s.append("&units=");
    s.append(match units {
        TempUnit::Celsius => "metric",
        TempUnit::Fahrenheit => "imperial",
    });
    proof {
        assert(s@ =~= owm_url_spec(city@, units));
    }
    s
}

/// Turns the outcome of the GET request into the backend's report: no
/// body means the request failed; a body is walked for the report, with
/// one generic failure message either way.
pub fn owm_report(fetched: Option<String>, units: TempUnit) -> (r: WeatherResult)
    ensures
        r is Err ==> r->Err_0@ == "Foo!"@,
        fetched is None ==> r is Err,
        fetched matches Some(body) ==> match owm_fields_of(body@) {
            (Some(d), Some(t)) => r is Ok && r->Ok_0 == owm_info(d, t, units),
            _ => r is Err,
        },
{
    match fetched {
        None => Err("Foo!".to_owned()),
        Some(body) => parse_weather(body.as_str(), units),
    }
}

} // verus!
