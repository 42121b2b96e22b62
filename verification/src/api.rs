//! Data contract for the provider's JSON responses.
//!
//! The polling core treats a report as an opaque value: it carries one
//! through the channel but never computes with its measurements. Numeric
//! measurements are therefore held as decimal text, exactly as an
//! unverified decoding layer hands them over, which keeps their original
//! precision.

use vstd::prelude::*;

verus! {

/// Location coordinates.
#[derive(Debug, Clone, PartialEq, Eq)]
pub struct Coord {
    /// geo location, longitude (decimal text)
    pub lon: String,
    /// geo location, latitude (decimal text)
    pub lat: String,
}

/// Weather condition description.
#[derive(Debug, Clone, PartialEq, Eq)]
pub struct Weather {
    /// Weather condition id
    pub id: u64,
    /// Group of weather parameters (Rain, Snow, Extreme etc.)
    pub main: String,
    /// Weather condition
    pub description: String,
    /// Weather icon id
    pub icon: String,
}

/// Aggregate measurements of a report.
#[derive(Debug, Clone, PartialEq, Eq)]
pub struct Main {
    /// Temperature (decimal text)
    pub temp: String,
    /// Perceived temperature (decimal text)
    pub feels_like: String,
    /// Atmospheric pressure, hPa (decimal text)
    pub pressure: String,
    /// Humidity, % (decimal text)
    pub humidity: String,
    /// Minimum temperature at the moment (decimal text)
    pub temp_min: String,
    /// Maximum temperature at the moment (decimal text)
    pub temp_max: String,
    /// Atmospheric pressure on the sea level, hPa (decimal text)
    pub sea_level: Option<String>,
    /// Atmospheric pressure on the ground level, hPa (decimal text)
    pub grnd_level: Option<String>,
}

/// Detailed wind report.
#[derive(Debug, Clone, PartialEq, Eq)]
pub struct Wind {
    /// Wind speed (decimal text)
    pub speed: String,
    /// Wind direction, degrees (decimal text)
    pub deg: String,
    /// Wind gust (decimal text)
    pub gust: Option<String>,
}

/// Detailed clouds report.
#[derive(Debug, Clone, PartialEq, Eq)]
pub struct Clouds {
    /// Cloudiness, % (decimal text)
    pub all: String,
}

/// Rain or snow volume report.
#[derive(Debug, Clone, PartialEq, Eq)]
pub struct Volume {
    /// Volume for the last 1 hour, mm (decimal text)
    pub h1: Option<String>,
    /// Volume for the last 3 hours, mm (decimal text)
    pub h3: Option<String>,
}

/// Additional information.
#[derive(Debug, Clone, PartialEq, Eq)]
pub struct Sys {
    /// Internal parameter
    pub type_: Option<u64>,
    /// Internal parameter
    pub id: Option<u64>,
    /// Internal parameter (decimal text)
    pub message: Option<String>,
    /// Country code (GB, JP etc.)
    pub country: String,
    /// Sunrise time, unix, UTC
    pub sunrise: i64,
    /// Sunset time, unix, UTC
    pub sunset: i64,
}

/// One hour of forecast data.
#[derive(Debug, Clone, PartialEq, Eq)]
pub struct Hour {
    /// Time of data calculation, unix, UTC
    pub dt: i64,
    /// Temperature (decimal text)
    pub temp: String,
    /// Perceived temperature (decimal text)
    pub feels_like: String,
    /// Atmospheric pressure, hPa (decimal text)
    pub pressure: String,
    /// Humidity, % (decimal text)
    pub humidity: String,
    /// Dew point (decimal text)
    pub dew_point: String,
    /// Cloudiness, %
    pub clouds: i64,
    /// Current UV index (decimal text)
    pub uvi: String,
    /// Visibility, meter
    pub visibility: i64,
    /// Wind speed (decimal text)
    pub wind_speed: String,
    /// Wind direction, degrees (decimal text)
    pub wind_deg: String,
    /// Wind gust (decimal text)
    pub wind_gust: Option<String>,
    /// Weather condition descriptions
    pub weather: Vec<Weather>,
    /// Probability of precipitation (decimal text)
    pub pop: String,
    /// Rain volume for the last hour
    pub rain: Option<Volume>,
    /// Snow volume for the last hour
    pub snow: Option<Volume>,
}

/// Temperatures over one day of forecast data.
#[derive(Debug, Clone, PartialEq, Eq)]
pub struct DailyTemp {
    /// Morning temperature (decimal text)
    pub morn: String,
    /// Day temperature (decimal text)
    pub day: String,
    /// Evening temperature (decimal text)
    pub eve: String,
    /// Night temperature (decimal text)
    pub night: String,
    /// Min daily temperature (decimal text)
    pub min: String,
    /// Max daily temperature (decimal text)
    pub max: String,
}

/// Perceived temperatures over one day of forecast data.
#[derive(Debug, Clone, PartialEq, Eq)]
pub struct DailyFeelsLike {
    /// Morning temperature (decimal text)
    pub morn: String,
    /// Day temperature (decimal text)
    pub day: String,
    /// Evening temperature (decimal text)
    pub eve: String,
    /// Night temperature (decimal text)
    pub night: String,
}

/// One day of forecast data.
#[derive(Debug, Clone, PartialEq, Eq)]
pub struct Day {
    /// Time of data calculation, unix, UTC
    pub dt: i64,
    /// Sunrise time, unix, UTC
    pub sunrise: i64,
    /// Sunset time, unix, UTC
    pub sunset: i64,
    /// The time of when the moon rises for this day, unix, UTC
    pub moonrise: i64,
    /// The time of when the moon sets for this day, unix, UTC
    pub moonset: i64,
    /// Moon phase (decimal text)
    pub moon_phase: String,
    /// Temperatures of the day
    pub temp: DailyTemp,
    /// Perceived temperatures of the day
    pub feels_like: DailyFeelsLike,
    /// Atmospheric pressure, hPa (decimal text)
    pub pressure: String,
    /// Humidity, % (decimal text)
    pub humidity: String,
    /// Dew point (decimal text)
    pub dew_point: String,
    /// Cloudiness, %
    pub clouds: i64,
    /// Current UV index (decimal text)
    pub uvi: String,
    /// Wind speed (decimal text)
    pub wind_speed: String,
    /// Wind direction, degrees (decimal text)
    pub wind_deg: String,
    /// Wind gust (decimal text)
    pub wind_gust: Option<String>,
    /// Weather condition descriptions
    pub weather: Vec<Weather>,
    /// Probability of precipitation (decimal text)
    pub pop: String,
    /// Precipitation volume, mm (decimal text)
    pub rain: Option<String>,
    /// Snow volume, mm (decimal text)
    pub snow: Option<String>,
}

/// One minute of precipitation forecast data.
#[derive(Debug, Clone, PartialEq, Eq)]
pub struct Minute {
    /// Time of data calculation, unix, UTC
    pub dt: i64,
    /// Precipitation volume, mm (decimal text)
    pub precipitation: Option<String>,
}

/// National weather alert from a major weather warning system.
#[derive(Debug, Clone, PartialEq, Eq)]
pub struct Alert {
    /// Name of the alert source.
    pub sender_name: String,
    /// Alert event name.
    pub event: String,
    /// Date and time of the start of the alert, unix, UTC
    pub start: i64,
    /// Date and time of the end of the alert, unix, UTC
    pub end: i64,
    /// Description of the alert.
    pub description: String,
    /// Type of severe weather
    pub tags: String,
}

/// Current conditions within a combined forecast report.
#[derive(Debug, Clone, PartialEq, Eq)]
pub struct Current {
    /// Time of data calculation, unix, UTC
    pub dt: i64,
    /// Sunrise time, unix, UTC
    pub sunrise: i64,
    /// Sunset time, unix, UTC
    pub sunset: i64,
    /// Temperature (decimal text)
    pub temp: String,
    /// Perceived temperature (decimal text)
    pub feels_like: String,
    /// Atmospheric pressure, hPa (decimal text)
    pub pressure: String,
    /// Humidity, % (decimal text)
    pub humidity: String,
    /// Dew point (decimal text)
    pub dew_point: String,
    /// Cloudiness, %
    pub clouds: i64,
    /// Current UV index (decimal text)
    pub uvi: String,
    /// Visibility, meter
    pub visibility: i64,
    /// Wind speed (decimal text)
    pub wind_speed: String,
    /// Wind direction, degrees (decimal text)
    pub wind_deg: String,
    /// Wind gust (decimal text)
    pub wind_gust: Option<String>,
    /// Weather condition descriptions
    pub weather: Vec<Weather>,
    /// Rain volume for the last hour
    pub rain: Option<Volume>,
    /// Snow volume for the last hour
    pub snow: Option<Volume>,
}

/// Combined current, minutely, hourly and daily report.
#[derive(Debug, Clone, PartialEq, Eq)]
pub struct OneCall {
    /// geo location, latitude (decimal text)
    pub lat: String,
    /// geo location, longitude (decimal text)
    pub lon: String,
    /// Timezone name for the requested location
    pub timezone: String,
    /// Shift in seconds from UTC
    pub timezone_offset: i64,
    /// Current weather
    pub current: Option<Current>,
    /// Hourly forecast weather
    pub hourly: Option<Vec<Hour>>,
    /// Minutely forecast weather
    pub minutely: Option<Vec<Minute>>,
    /// Daily forecast weather
    pub daily: Option<Vec<Day>>,
    /// National weather alerts from major weather warning systems
    pub alerts: Option<Vec<Alert>>,
}

/// Current weather report in a nested struct.
#[derive(Debug, Clone, PartialEq, Eq)]
pub struct CurrentWeather {
    /// report origin coordinates
    pub coord: Coord,
    /// weather condition descriptions
    pub weather: Vec<Weather>,
    /// Internal parameter
    pub base: String,
    /// aggregate measurements
    pub main: Main,
    /// Visibility, meter
    pub visibility: u64,
    /// detailed wind report
    pub wind: Wind,
    /// detailed clouds report
    pub clouds: Clouds,
    /// detailed rain report
    pub rain: Option<Volume>,
    /// detailed snow report
    pub snow: Option<Volume>,
    /// Time of data calculation, unix, UTC
    pub dt: i64,
    /// additional information
    pub sys: Sys,
    /// Shift in seconds from UTC
    pub timezone: i64,
    /// City ID
    pub id: u64,
    /// City name
    pub name: String,
    /// Internal parameter
    pub cod: u64,
}

} // verus!
