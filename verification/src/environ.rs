//! Configuration sources: the values read from the command line and
//! from the per-user configuration file, each turned into a
//! `Configuration` that sets only the fields the source specified.
//!
//! TOML parsing is the `toml` crate's work; which keys are read, from
//! which table, and what each one sets is the library's, and is
//! verified.
use vstd::prelude::*;

use crate::text::int_str;
use crate::types::{Configuration, TempUnit};

verus! {

/// The configuration the command-line arguments describe: the
/// Fahrenheit flag sets the unit (its absence leaves the unit unset),
/// and an empty city or provider argument counts as not provided.
pub fn cli_config(fahrenheits: bool, city: &str, provider: &str) -> (r: Configuration)
    ensures
        r.units == if fahrenheits {
            Some(TempUnit::Fahrenheit)
        } else {
            None::<TempUnit>
        },
        city@.len() == 0 ==> r.city is None,
        city@.len() > 0 ==> r.city is Some && r.city->0@ == city@,
        provider@.len() == 0 ==> r.provider is None,
        provider@.len() > 0 ==> r.provider is Some && r.provider->0@ == provider@,
{
    let units = if fahrenheits {
        Some(TempUnit::Fahrenheit)
    } else {
        None
    };
    let city_field = if city.is_empty() {
        None
    } else {
        Some(city.to_owned())
    };
    let provider_field = if provider.is_empty() {
        None
    } else {
        Some(provider.to_owned())
    };
    Configuration { city: city_field, units, provider: provider_field }
}

/// The three scalar values under one sub-table of a TOML document: the
/// integer under `int_key`, the boolean under `bool_key` and the string
/// under `str_key` of the table under `table`; nothing at all when the
/// document does not parse or holds no such table, and an unset entry
/// for each key that is missing or of another type.
pub uninterp spec fn toml_scalars_of(
    text: Seq<char>,
    table: Seq<char>,
    int_key: Seq<char>,
    bool_key: Seq<char>,
    str_key: Seq<char>,
) -> Option<(Option<i64>, Option<bool>, Option<String>)>;

/// Relies on str::parse::<toml::Table>, toml::map::Map::get and
/// toml::Value::as_table / as_integer / as_bool / as_str: parses the
/// text and reads three typed scalars out of one named sub-table. The
/// result depends on the arguments alone, so it is `toml_scalars_of`.
#[verifier::external_body]
fn toml_scalars(text: &str, table: &str, int_key: &str, bool_key: &str, str_key: &str) -> (r:
    Option<(Option<i64>, Option<bool>, Option<String>)>)
    ensures
        r == toml_scalars_of(text@, table@, int_key@, bool_key@, str_key@),
{
    let root: toml::Table = match text.parse() {
        Ok(t) => t,
        Err(_) => return None,
    };
    let sub = root.get(table)?.as_table()?;
    Some((
        sub.get(int_key).and_then(|v| v.as_integer()),
        sub.get(bool_key).and_then(|v| v.as_bool()),
        sub.get(str_key).and_then(|v| v.as_str()).map(|s| s.to_owned()),
    ))
}

/// The `params` values a configuration file's text holds: its `city`
/// integer, `fahrenheits` boolean and `provider` string.
pub open spec fn file_params_of(text: Seq<char>) -> Option<
    (Option<i64>, Option<bool>, Option<String>),
> {
    toml_scalars_of(text, "params"@, "city"@, "fahrenheits"@, "provider"@)
}

/// Whether a configuration is what the three optional `params` values
/// of a configuration file make: a numeric city identifier rendered in
/// decimal; a `fahrenheits` boolean that, when present, picks the unit
/// explicitly either way; a provider name taken as it stands.
pub open spec fn params_configured(
    r: Configuration,
    city: Option<i64>,
    fahrenheits: Option<bool>,
    provider: Option<String>,
) -> bool {
    &&& (city is None ==> r.city is None)
    &&& (city is Some ==> r.city is Some && r.city->0@ == int_str(city->0 as int))
    &&& r.units == (match fahrenheits {
        Some(true) => Some(TempUnit::Fahrenheit),
        Some(false) => Some(TempUnit::Celsius),
        None => None::<TempUnit>,
    })
    &&& r.provider == provider
}

/// Builds the configuration the three optional `params` values
/// describe.
pub fn params_config(city: Option<i64>, fahrenheits: Option<bool>, provider: Option<String>) -> (r:
    Configuration)
    ensures
        params_configured(r, city, fahrenheits, provider),
{
    let city_field = match city {
        Some(n) => Some(crate::text::i64_to_string(n)),
        None => None,
    };
    let units = match fahrenheits {
        Some(true) => Some(TempUnit::Fahrenheit),
        Some(false) => Some(TempUnit::Celsius),
        None => None,
    };
    Configuration { city: city_field, units, provider }
}

/// The configuration a configuration file describes. No file at all
/// (`None`) is tolerated and yields an all-unset configuration; a file
/// that does not parse, or one without a `params` table, is the fatal
/// "Can't parse the config". From the `params` table, `city` counts
/// only as an integer, `fahrenheits` only as a boolean, `provider` only
/// as a string; a missing or differently-typed key leaves its field
/// unset.
pub fn file_config(text: Option<&str>) -> (r: Result<Configuration, String>)
    ensures
        text is None ==> r is Ok && r->Ok_0 == (Configuration {
            city: None,
            units: None,
            provider: None,
        }),
        r is Err ==> r->Err_0@ == "Can't parse the config"@,
        text matches Some(t) ==> match file_params_of(t@) {
            None => r is Err,
            Some(params) => r is Ok && params_configured(r->Ok_0, params.0, params.1, params.2),
        },
{
    let text = match text {
        None => {
            return Ok(Configuration { city: None, units: None, provider: None });
        },
        Some(text) => text,
    };
    match toml_scalars(text, "params", "city", "fahrenheits", "provider") {
        None => Err("Can't parse the config".to_owned()),
        Some((city, fahrenheits, provider)) => {
            let ghost gc = city;
            let ghost gf = fahrenheits;
            let ghost gp = provider;
            let c = params_config(city, fahrenheits, provider);
            proof {
                assert(params_configured(c, gc, gf, gp));
            }
            Ok(c)
        },
    }
}

} // verus!
