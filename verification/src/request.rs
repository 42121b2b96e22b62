//! Request building.
//!
//! A session's request URL is composed once, from the classified location
//! and the immutable poll configuration. Construction is deterministic:
//! the URL is a pure function of the two, stated by `url_of`.

use crate::location::{coord_captures, is_numeric_id, numeric_id_val, LocationSpec};
use crate::text::{canonical_digits, lemma_canonical_digits_of_val, u64_to_string};
use vstd::prelude::*;
use vstd::string::StringExecFns;

verus! {

/// Measurement system for the requested report.
#[derive(Debug, Clone, Copy, PartialEq, Eq)]
pub enum Units {
    /// meters, m/s, K
    Standard,
    /// meters, m/s, degrees Celsius
    Metric,
    /// miles, mi/h, degrees Fahrenheit
    Imperial,
}

/// The query value of a measurement system.
pub open spec fn units_code(u: Units) -> Seq<char> {
    match u {
        Units::Standard => "standard"@,
        Units::Metric => "metric"@,
        Units::Imperial => "imperial"@,
    }
}

impl Units {
    /// The query value sent to the provider.
    pub fn code(&self) -> (r: &'static str)
        ensures
            r@ == units_code(*self),
    {
        match self {
            Units::Standard => "standard",
            Units::Metric => "metric",
            Units::Imperial => "imperial",
        }
    }
}

/// Immutable configuration of one polling session.
#[derive(Debug, Clone, PartialEq, Eq)]
pub struct PollConfig {
    /// Measurement system of the report's values.
    pub units: Units,
    /// Language code of the report's descriptions.
    pub lang: String,
    /// Credential for the provider; carried opaquely into the URL.
    pub api_key: String,
    /// Poll interval in minutes; zero means a single update, then stop.
    pub poll_mins: u64,
}

impl PollConfig {
    /// Whether the session stops after its first terminal outcome.
    pub open spec fn spec_single_shot(&self) -> bool {
        self.poll_mins == 0
    }

    /// Whether the session stops after its first terminal outcome.
    pub fn single_shot(&self) -> (r: bool)
        ensures
            r == self.spec_single_shot(),
    {
        self.poll_mins == 0
    }
}

/// The fixed endpoint every request goes to.
pub open spec fn url_base() -> Seq<char> {
    "http://api.openweathermap.org/data/2.5/weather?"@
}

/// The location-dependent part of the query.
pub open spec fn location_query(loc: LocationSpec) -> Seq<char> {
    match loc {
        LocationSpec::ById(id) => "id="@ + canonical_digits(id as int),
        LocationSpec::ByCoordinates { lat, lon } => "lat="@ + lat@ + "&lon="@ + lon@,
        LocationSpec::ByName(name) => "q="@ + name@,
    }
}

/// The fixed trailing parameters: units, language and credential.
pub open spec fn config_query(cfg: PollConfig) -> Seq<char> {
    "&units="@ + units_code(cfg.units) + "&lang="@ + cfg.lang@ + "&appid="@ + cfg.api_key@
}

/// The full request URL of a session.
pub open spec fn url_of(loc: LocationSpec, cfg: PollConfig) -> Seq<char> {
    url_base() + location_query(loc) + config_query(cfg)
}

/// Compose the request URL for one classified location and one
/// configuration.
pub fn build_url(loc: &LocationSpec, cfg: &PollConfig) -> (r: String)
    ensures
        r@ == url_of(*loc, *cfg),
{
    let mut url = String::from_str("http://api.openweathermap.org/data/2.5/weather?");
    match loc {
        LocationSpec::ById(id) => {
            url.append("id=");
            let digits = u64_to_string(*id);
            url.append(digits.as_str());
        },
        LocationSpec::ByCoordinates { lat, lon } => {
            url.append("lat=");
            url.append(lat.as_str());
            url.append("&lon=");
            url.append(lon.as_str());
        },
        LocationSpec::ByName(name) => {
            url.append("q=");
            url.append(name.as_str());
        },
    }
    url.append("&units=");
    url.append(cfg.units.code());
    url.append("&lang=");
    url.append(cfg.lang.as_str());
    url.append("&appid=");
    url.append(cfg.api_key.as_str());
    proof {
        assert(url@ =~= url_of(*loc, *cfg));
    }
    url
}

/// Law: for a numeric location string, the classified descriptor carries
/// the parsed identifier and the URL queries by id. A canonical numeric
/// string, without sign or leading zero, appears in the URL verbatim.
pub proof fn lemma_url_for_numeric_location(s: Seq<char>, loc: LocationSpec, cfg: PollConfig)
    requires
        is_numeric_id(s),
        loc matches LocationSpec::ById(id) && id as int == numeric_id_val(s),
    ensures
        url_of(loc, cfg) =~= url_base() + "id="@ + canonical_digits(numeric_id_val(s))
            + config_query(cfg),
        s.len() > 0 && s[0] != '+' && (s.len() == 1 || s[0] != '0') ==> url_of(loc, cfg)
            =~= url_base() + "id="@ + s + config_query(cfg),
{
    if s.len() > 0 && s[0] != '+' && (s.len() == 1 || s[0] != '0') {
        lemma_canonical_digits_of_val(s);
    }
}

/// Law: for a location classified as coordinates, both captured literals
/// appear verbatim as the URL's lat and lon parameters.
pub proof fn lemma_url_for_coordinate_location(
    loc: LocationSpec,
    cfg: PollConfig,
    la: Seq<char>,
    lo: Seq<char>,
)
    requires
        loc matches LocationSpec::ByCoordinates { lat, lon } && lat@ == la && lon@ == lo,
    ensures
        url_of(loc, cfg) =~= url_base() + "lat="@ + la + "&lon="@ + lo + config_query(cfg),
{
}

/// Law: a string that is neither numeric nor contains a coordinate pair
/// is classified as a name, and the URL's name parameter is the input
/// string unchanged.
pub proof fn lemma_url_for_name_location(s: Seq<char>, loc: LocationSpec, cfg: PollConfig)
    requires
        !is_numeric_id(s),
        coord_captures(s) is None,
        loc matches LocationSpec::ByName(name) && name@ == s,
    ensures
        url_of(loc, cfg) =~= url_base() + "q="@ + s + config_query(cfg),
{
}

} // verus!
