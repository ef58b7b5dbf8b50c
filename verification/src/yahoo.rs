//! The Yahoo Weather backend: request URL, and the scan of the XML
//! response for the `units` and `condition` elements.
//!
//! XML tokenisation is the `xml` crate's work; the scan over the tokens
//! it yields is the library's, and is verified against `scan_tokens`.
use vstd::prelude::*;

use crate::text::{parse_i8, parsed_i8, str_eq};
use crate::types::{TempUnit, WeatherInfo, WeatherResult};

verus! {

/// One attribute of an XML element: local name and value.
#[derive(Clone, PartialEq, Eq, Debug)]
pub struct XmlAttr {
    pub name: String,
    pub value: String,
}

/// One event of an XML document, reduced to what the scan reads: an
/// element start with its attributes, the end of the document, a reader
/// error, or anything else.
#[derive(Clone, PartialEq, Eq, Debug)]
pub enum XmlToken {
    Start { name: String, attrs: Vec<XmlAttr> },
    Stop,
    Broken,
    Other,
}

/// Whether a token ends the scan.
pub open spec fn is_end(t: XmlToken) -> bool {
    t is Stop || t is Broken
}

/// The value of the first attribute with the given name, if any.
pub open spec fn find_attr(attrs: Seq<XmlAttr>, name: Seq<char>) -> Option<String>
    decreases attrs.len(),
{
    if attrs.len() == 0 {
        None
    } else if attrs[0].name@ == name {
        Some(attrs[0].value)
    } else {
        find_attr(attrs.drop_first(), name)
    }
}

/// The unit a `temperature` attribute value names. Any code other than
/// `C` or `F` yields nothing: an unrecognised code from the remote feed
/// is treated as a parse failure, not as a fatal condition.
pub open spec fn unit_of_code(v: Seq<char>) -> Option<TempUnit> {
    if v == "C"@ {
        Some(TempUnit::Celsius)
    } else if v == "F"@ {
        Some(TempUnit::Fahrenheit)
    } else {
        None
    }
}

/// What a `units` element contributes: the unit of its `temperature`
/// attribute.
pub open spec fn unit_of_attrs(attrs: Seq<XmlAttr>) -> Option<TempUnit> {
    match find_attr(attrs, "temperature"@) {
        Some(v) => unit_of_code(v@),
        None => None,
    }
}

/// What a `condition` element contributes: its `text` attribute together
/// with its `temp` attribute read as whole degrees.
pub open spec fn cond_of_attrs(attrs: Seq<XmlAttr>) -> Option<(String, i8)> {
    match (find_attr(attrs, "text"@), find_attr(attrs, "temp"@)) {
        (Some(s), Some(t)) => match parsed_i8(t@) {
            Some(d) => Some((s, d)),
            None => None,
        },
        _ => None,
    }
}

/// What the scan has gathered so far: the latest `condition` and `units`
/// contributions.
#[derive(PartialEq, Eq, Debug)]
pub struct ScanState {
    pub condition: Option<(String, i8)>,
    pub unit: Option<TempUnit>,
}

/// The state the scan starts from.
pub open spec fn scan_init() -> ScanState {
    ScanState { condition: None, unit: None }
}

/// How one token changes the scan state: a `units` start sets the unit,
/// a `condition` start sets the condition, and every later occurrence
/// overwrites the earlier one.
pub open spec fn scan_step(s: ScanState, t: XmlToken) -> ScanState {
    match t {
        XmlToken::Start { name, attrs } => if name@ == "units"@ {
            ScanState { condition: s.condition, unit: unit_of_attrs(attrs@) }
        } else if name@ == "condition"@ {
            ScanState { condition: cond_of_attrs(attrs@), unit: s.unit }
        } else {
            s
        },
        _ => s,
    }
}

/// The report a finished scan yields: one only when both a condition and
/// a unit were gathered.
pub open spec fn scan_finish(s: ScanState) -> Option<WeatherInfo> {
    match (s.condition, s.unit) {
        (Some(c), Some(u)) => Some(WeatherInfo { status: c.0, degrees: c.1, unit: u }),
        _ => None,
    }
}

/// The scan over a whole token stream: steps until the first end token
/// (or the stream's end), then finishes.
pub open spec fn scan_tokens(s: ScanState, toks: Seq<XmlToken>) -> Option<WeatherInfo>
    decreases toks.len(),
{
    if toks.len() == 0 {
        scan_finish(s)
    } else if is_end(toks[0]) {
        scan_finish(s)
    } else {
        scan_tokens(scan_step(s, toks[0]), toks.drop_first())
    }
}

/// The value of the first attribute with the given name, if any.
fn attr_lookup(attrs: &Vec<XmlAttr>, name: &str) -> (r: Option<String>)
    ensures
        r == find_attr(attrs@, name@),
{
    let mut i: usize = 0;
    proof {
        assert(attrs@.skip(0) =~= attrs@);
    }
    while i < attrs.len()
        invariant
            i <= attrs@.len(),
            find_attr(attrs@, name@) == find_attr(attrs@.skip(i as int), name@),
        decreases attrs@.len() - i,
    {
        proof {
            assert(attrs@.skip(i as int)[0] == attrs@[i as int]);
        }
        if str_eq(attrs[i].name.as_str(), name) {
            return Some(attrs[i].value.clone());
        }
        proof {
            assert(attrs@.skip(i as int).drop_first() =~= attrs@.skip(i + 1));
        }
        i = i + 1;
    }
    proof {
        assert(attrs@.skip(i as int).len() == 0);
    }
    None
}

/// What a `units` element contributes.
fn unit_lookup(attrs: &Vec<XmlAttr>) -> (r: Option<TempUnit>)
    ensures
        r == unit_of_attrs(attrs@),
{
    match attr_lookup(attrs, "temperature") {
        Some(v) => if str_eq(v.as_str(), "C") {
            Some(TempUnit::Celsius)
        } else if str_eq(v.as_str(), "F") {
            Some(TempUnit::Fahrenheit)
        } else {
            None
        },
        None => None,
    }
}

/// What a `condition` element contributes.
fn cond_lookup(attrs: &Vec<XmlAttr>) -> (r: Option<(String, i8)>)
    ensures
        r == cond_of_attrs(attrs@),
{
    let text = attr_lookup(attrs, "text");
    let temp = attr_lookup(attrs, "temp");
    match (text, temp) {
        (Some(s), Some(t)) => match parse_i8(t.as_str()) {
            Some(d) => Some((s, d)),
            None => None,
        },
        _ => None,
    }
}

/// Applies one token to the scan state.
pub fn scan_step_exec(s: ScanState, t: &XmlToken) -> (r: ScanState)
    ensures
        r == scan_step(s, *t),
{
    match t {
        XmlToken::Start { name, attrs } => if str_eq(name.as_str(), "units") {
            ScanState { condition: s.condition, unit: unit_lookup(attrs) }
        } else if str_eq(name.as_str(), "condition") {
            ScanState { condition: cond_lookup(attrs), unit: s.unit }
        } else {
            ScanState { condition: s.condition, unit: s.unit }
        },
        _ => s,
    }
}

/// Turns a finished scan state into a report, if it is complete.
fn finish_exec(s: ScanState) -> (r: Option<WeatherInfo>)
    ensures
        r == scan_finish(s),
{
    match (s.condition, s.unit) {
        (Some(c), Some(u)) => Some(WeatherInfo { status: c.0, degrees: c.1, unit: u }),
        _ => None,
    }
}

/// Scans a whole token stream, as `scan_tokens` describes it.
pub fn parse_tokens(tokens: &Vec<XmlToken>) -> (r: Option<WeatherInfo>)
    ensures
        r == scan_tokens(scan_init(), tokens@),
{
    let mut state = ScanState { condition: None, unit: None };
    let mut i: usize = 0;
    proof {
        assert(tokens@.skip(0) =~= tokens@);
    }
    while i < tokens.len()
        invariant
            i <= tokens@.len(),
            scan_tokens(scan_init(), tokens@) == scan_tokens(state, tokens@.skip(i as int)),
        decreases tokens@.len() - i,
    {
        proof {
            assert(tokens@.skip(i as int)[0] == tokens@[i as int]);
            assert(tokens@.skip(i as int).drop_first() =~= tokens@.skip(i + 1));
        }
        let t = &tokens[i];
        match t {
            XmlToken::Stop => {
                return finish_exec(state);
            },
            XmlToken::Broken => {
                return finish_exec(state);
            },
            _ => (),
        }
        state = scan_step_exec(state, t);
        i = i + 1;
    }
    proof {
        assert(tokens@.skip(i as int).len() == 0);
    }
    finish_exec(state)
}

/// The token stream the `xml` crate's pull parser yields for a text:
/// one token per event, ending with the token for the document's end or
/// for the first reader error.
pub uninterp spec fn xml_tokens_of(text: Seq<char>) -> Seq<XmlToken>;

/// Relies on xml::reader::EventReader::from_str and its event iterator,
/// which yields events up to and including the end of the document or
/// the first error; each event is reduced to an `XmlToken`. The events
/// depend on the text alone, so the result is `xml_tokens_of`.
#[verifier::external_body]
fn xml_tokens(text: &str) -> (r: Vec<XmlToken>)
    ensures
        r@ == xml_tokens_of(text@),
{
    xml::reader::EventReader::from_str(text).into_iter().map(|ev| match ev {
        Ok(xml::reader::XmlEvent::StartElement { name, attributes, .. }) => XmlToken::Start {
            name: name.local_name,
            attrs: attributes.into_iter().map(
                |a| XmlAttr { name: a.name.local_name, value: a.value },
            ).collect(),
        },
        Ok(xml::reader::XmlEvent::EndDocument) => XmlToken::Stop,
        Err(_) => XmlToken::Broken,
        Ok(_) => XmlToken::Other,
    }).collect()
}

/// What scanning an XML body yields: the scan of its token stream.
pub open spec fn yahoo_scan_of(body: Seq<char>) -> Option<WeatherInfo> {
    scan_tokens(scan_init(), xml_tokens_of(body))
}

/// Scans an XML document for the `units` and `condition` elements.
pub fn parse_weather(text: &str) -> (r: Option<WeatherInfo>)
    ensures
        r == yahoo_scan_of(text@),
{
    let tokens = xml_tokens(text);
    parse_tokens(&tokens)
}

/// The query URL of the Yahoo backend for a city and unit.
pub open spec fn yahoo_url_spec(city: Seq<char>, units: TempUnit) -> Seq<char> {
    "http://weather.yahooapis.com/forecastrss?w="@ + city + "&u="@ + (if units is Celsius {
        "c"@
    } else {
        "f"@
    })
}

/// Builds the query URL of the Yahoo backend.
pub fn yahoo_url(city: &str, units: TempUnit) -> (r: String)
    ensures
        r@ == yahoo_url_spec(city@, units),
{
    let mut s = "http://weather.yahooapis.com/forecastrss?w=".to_owned();
    s.append(city);
    s.append("&u=");
    s.append(match units {
        TempUnit::Celsius => "c",
        TempUnit::Fahrenheit => "f",
    });
    proof {
        assert(s@ =~= yahoo_url_spec(city@, units));
    }
    s
}

/// Turns the outcome of the GET request into the backend's report: no
/// body means the request failed; a body is scanned, and an incomplete
/// scan is the backend's generic failure.
pub fn yahoo_report(fetched: Option<String>) -> (r: WeatherResult)
    ensures
        fetched is None ==> r is Err && r->Err_0@ == "Can't request the data!"@,
        fetched matches Some(body) ==> match yahoo_scan_of(body@) {
            Some(w) => r == Ok::<WeatherInfo, String>(w),
            None => r is Err && r->Err_0@ == "Can't get info from Yahoo API!"@,
        },
{
    match fetched {
        None => Err("Can't request the data!".to_owned()),
        Some(body) => match parse_weather(body.as_str()) {
            Some(w) => Ok(w),
            None => Err("Can't get info from Yahoo API!".to_owned()),
        },
    }
}

} // verus!
