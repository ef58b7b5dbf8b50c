//! The provider registry: a fixed mapping from a provider name to the
//! backend that services the lookup.
use vstd::prelude::*;

use crate::owm::{owm_fields_of, owm_info, owm_report, owm_url, owm_url_spec};
use crate::text::str_eq;
use crate::types::{TempUnit, WeatherInfo, WeatherResult};
use crate::yahoo::{yahoo_report, yahoo_scan_of, yahoo_url, yahoo_url_spec};

verus! {

/// A weather backend known to the registry.
#[derive(Clone, Copy, PartialEq, Eq, Structural, Debug)]
pub enum ProviderKind {
    Yahoo,
    Owm,
}

/// The registry as a function: the backend a name resolves to, if any.
pub open spec fn provider_of(name: Seq<char>) -> Option<ProviderKind> {
    if name == "yahoo"@ {
        Some(ProviderKind::Yahoo)
    } else if name == "owm"@ {
        Some(ProviderKind::Owm)
    } else {
        None
    }
}

/// Looks a provider up by name.
pub fn get_provider(name: &str) -> (r: Option<ProviderKind>)
    ensures
        r == provider_of(name@),
{
    if str_eq(name, "yahoo") {
        Some(ProviderKind::Yahoo)
    } else if str_eq(name, "owm") {
        Some(ProviderKind::Owm)
    } else {
        None
    }
}

/// The query URL the named backend asks, for a city and unit.
pub fn provider_url(kind: ProviderKind, city: &str, units: TempUnit) -> (r: String)
    ensures
        kind is Yahoo ==> r@ == yahoo_url_spec(city@, units),
        kind is Owm ==> r@ == owm_url_spec(city@, units),
{
    match kind {
        ProviderKind::Yahoo => yahoo_url(city, units),
        ProviderKind::Owm => owm_url(city, units),
    }
}

/// The report the named backend makes of the outcome of its GET
/// request, exactly as that backend's own report function states it.
pub fn provider_report(kind: ProviderKind, fetched: Option<String>, units: TempUnit) -> (r:
    WeatherResult)
    ensures
        kind is Yahoo && fetched is None ==> r is Err && r->Err_0@ == "Can't request the data!"@,
        kind is Yahoo ==> (fetched matches Some(body) ==> match yahoo_scan_of(body@) {
            Some(w) => r == Ok::<WeatherInfo, String>(w),
            None => r is Err && r->Err_0@ == "Can't get info from Yahoo API!"@,
        }),
        kind is Owm && r is Err ==> r->Err_0@ == "Foo!"@,
        kind is Owm && fetched is None ==> r is Err,
        kind is Owm ==> (fetched matches Some(body) ==> match owm_fields_of(body@) {
            (Some(d), Some(t)) => r is Ok && r->Ok_0 == owm_info(d, t, units),
            _ => r is Err,
        }),
{
    match kind {
        ProviderKind::Yahoo => yahoo_report(fetched),
        ProviderKind::Owm => owm_report(fetched, units),
    }
}

/// Law: the two registered names resolve to the two distinct backends,
/// and any other name resolves to nothing.
pub proof fn lemma_provider_registry(name: Seq<char>)
    ensures
        provider_of("yahoo"@) == Some(ProviderKind::Yahoo),
        provider_of("owm"@) == Some(ProviderKind::Owm),
        provider_of("yahoo"@) != provider_of("owm"@),
        name != "yahoo"@ && name != "owm"@ ==> provider_of(name) is None,
{
    reveal_strlit("yahoo");
    reveal_strlit("owm");
    assert("yahoo"@.len() == 5);
    assert("owm"@.len() == 3);
    assert("owm"@ != "yahoo"@);
}

} // verus!
