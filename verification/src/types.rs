//! The data model: temperature units, weather reports, and the layered
//! configuration with its override merge and validation sequence.
use vstd::prelude::*;

use crate::providers::{provider_of, ProviderKind};
use crate::text::int_str;

verus! {

/// Temperature unit, used both for querying a provider and for display.
#[derive(Clone, Copy, PartialEq, Eq, Structural, Debug)]
pub enum TempUnit {
    Celsius,
    Fahrenheit,
}

/// The display suffix of a unit: `°C` for Celsius, `°F` for Fahrenheit.
pub open spec fn unit_suffix(u: TempUnit) -> Seq<char> {
    if u is Celsius {
        "°C"@
    } else {
        "°F"@
    }
}

impl TempUnit {
    /// The display suffix of this unit.
    pub fn suffix(&self) -> (r: &'static str)
        ensures
            r@ == unit_suffix(*self),
    {
        match self {
            TempUnit::Celsius => "°C",
            TempUnit::Fahrenheit => "°F",
        }
    }
}

/// A weather report: a free-text condition, whole degrees, and the unit
/// the degrees are expressed in.
#[derive(Clone, PartialEq, Eq, Debug)]
pub struct WeatherInfo {
    pub status: String,
    pub degrees: i8,
    pub unit: TempUnit,
}

/// The one-line rendering of a report: degrees, unit suffix, a comma,
/// then the condition text.
pub open spec fn info_display(w: WeatherInfo) -> Seq<char> {
    int_str(w.degrees as int) + unit_suffix(w.unit) + ", "@ + w.status@
}

impl WeatherInfo {
    pub fn new(status: String, degrees: i8, unit: TempUnit) -> (r: WeatherInfo)
        ensures
            r == (WeatherInfo { status, degrees, unit }),
    {
        WeatherInfo { status, degrees, unit }
    }

    /// Renders the report as `"{degrees}{unit}, {status}"`.
    pub fn display(&self) -> (r: String)
        ensures
            r@ == info_display(*self),
    {
        let mut s = crate::text::i64_to_string(self.degrees as i64);
        s.append(self.unit.suffix());
        s.append(", ");
        s.append(self.status.as_str());
        s
    }
}

/// Result of one weather lookup: a report, or a message meant for display.
pub type WeatherResult = Result<WeatherInfo, String>;

/// A merged set of lookup parameters; each field is optional, and absence
/// means "inherit from a lower-priority source".
#[derive(Clone, PartialEq, Eq, Debug)]
pub struct Configuration {
    pub city: Option<String>,
    pub units: Option<TempUnit>,
    pub provider: Option<String>,
}

/// Per-field override merge: each field of the result is the override's
/// when that one is set, else the base's.
pub open spec fn apply_spec(base: Configuration, over: Configuration) -> Configuration {
    Configuration {
        city: if over.city is Some {
            over.city
        } else {
            base.city
        },
        units: if over.units is Some {
            over.units
        } else {
            base.units
        },
        provider: if over.provider is Some {
            over.provider
        } else {
            base.provider
        },
    }
}

/// A fully resolved lookup: the provider to call and the arguments to
/// hand it.
#[derive(Clone, PartialEq, Eq, Debug)]
pub struct WeatherQuery {
    pub provider: ProviderKind,
    pub city: String,
    pub units: TempUnit,
}

impl Configuration {
    pub fn new(city: Option<String>, units: Option<TempUnit>, provider: Option<String>) -> (r:
        Configuration)
        ensures
            r == (Configuration { city, units, provider }),
    {
        Configuration { city, units, provider }
    }

    /// Merges `other` over `self`, field by field; neither value is
    /// changed.
    pub fn apply(&self, other: Configuration) -> (r: Configuration)
        ensures
            r == apply_spec(*self, other),
    {
        Configuration {
            city: match other.city {
                Some(c) => Some(c),
                None => self.city.clone(),
            },
            units: match other.units {
                Some(u) => Some(u),
                None => self.units,
            },
            provider: match other.provider {
                Some(p) => Some(p),
                None => self.provider.clone(),
            },
        }
    }

    /// Resolves this configuration into a runnable query, checking in a
    /// fixed order: provider set, provider known, city set, units set.
    /// Only the first unmet condition is ever reported.
    pub fn get_weather_by(&self) -> (r: Result<WeatherQuery, String>)
        ensures
            self.provider is None ==> r is Err && r->Err_0@ == "No provider specified!"@,
            self.provider is Some && provider_of(self.provider->0@) is None ==> r is Err
                && r->Err_0@ == "Unknown provider!"@,
            self.provider is Some && provider_of(self.provider->0@) is Some && self.city is None
                ==> r is Err && r->Err_0@ == "No city specified!"@,
            self.provider is Some && provider_of(self.provider->0@) is Some && self.city is Some
                && self.units is None ==> r is Err && r->Err_0@ == "No units specified!"@,
            self.provider is Some && provider_of(self.provider->0@) is Some && self.city is Some
                && self.units is Some ==> r is Ok && r->Ok_0 == (WeatherQuery {
                provider: provider_of(self.provider->0@)->0,
                city: self.city->0,
                units: self.units->0,
            }),
    {
        let name = match &self.provider {
            None => {
                return Err("No provider specified!".to_owned());
            },
            Some(name) => name,
        };
        let kind = match crate::providers::get_provider(name.as_str()) {
            None => {
                return Err("Unknown provider!".to_owned());
            },
            Some(kind) => kind,
        };
        let city = match &self.city {
            None => {
                return Err("No city specified!".to_owned());
            },
            Some(city) => city.clone(),
        };
        let units = match &self.units {
            None => {
                return Err("No units specified!".to_owned());
            },
            Some(units) => *units,
        };
        Ok(WeatherQuery { provider: kind, city, units })
    }
}

/// Law: a merge is decided field by field, the override winning exactly
/// where it is set.
pub proof fn lemma_apply_overrides(a: Configuration, b: Configuration)
    ensures
        apply_spec(a, b).city == if b.city is Some {
            b.city
        } else {
            a.city
        },
        apply_spec(a, b).units == if b.units is Some {
            b.units
        } else {
            a.units
        },
        apply_spec(a, b).provider == if b.provider is Some {
            b.provider
        } else {
            a.provider
        },
{
}

/// Law: overriding with an all-unset configuration is a no-op.
pub proof fn lemma_apply_empty(a: Configuration)
    ensures
        apply_spec(a, Configuration { city: None, units: None, provider: None }) == a,
{
}

/// Law: when defaults, a file configuration and a command-line
/// configuration are applied in that order, a field set on the command
/// line wins; else a field set in the file; else the default.
pub proof fn lemma_resolution_order(d: Configuration, f: Configuration, c: Configuration)
    ensures
        apply_spec(apply_spec(d, f), c).city == if c.city is Some {
            c.city
        } else if f.city is Some {
            f.city
        } else {
            d.city
        },
        apply_spec(apply_spec(d, f), c).units == if c.units is Some {
            c.units
        } else if f.units is Some {
            f.units
        } else {
            d.units
        },
        apply_spec(apply_spec(d, f), c).provider == if c.provider is Some {
            c.provider
        } else if f.provider is Some {
            f.provider
        } else {
            d.provider
        },
{
}

} // verus!
