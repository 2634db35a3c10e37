//! The weather report carried by the Display phase, and the static mapping
//! from weather codes to human-readable conditions.

use vstd::prelude::*;

verus! {

/// A fetched weather report, reduced to the plain values the UI shows.
/// Numeric readings arrive already rendered, with their units.
pub struct WeatherInfo {
    pub location_name: String,
    pub country: String,
    pub region: Option<String>,
    pub weather_code: u32,
    pub humidity: u32,
    pub temperature: String,
    pub apparent_temperature: String,
    pub precipitation: String,
    pub wind_speed: String,
    pub pressure: String,
}

/// The condition text for each weather code.
pub open spec fn spec_weather_description(code: u32) -> Seq<char> {
    if code == 0 {
        "Clear sky"@
    } else if code == 1 {
        "Mainly clear"@
    } else if code == 2 {
        "Partly cloudy"@
    } else if code == 3 {
        "Overcast"@
    } else if code == 45 || code == 48 {
        "Foggy"@
    } else if code == 51 || code == 53 || code == 55 {
        "Drizzle"@
    } else if code == 61 || code == 63 || code == 65 {
        "Rain"@
    } else if code == 71 || code == 73 || code == 75 {
        "Snow"@
    } else if code == 77 {
        "Snow grains"@
    } else if code == 80 || code == 81 || code == 82 {
        "Rain showers"@
    } else if code == 85 || code == 86 {
        "Snow showers"@
    } else if code == 95 {
        "Thunderstorm"@
    } else if code == 96 || code == 99 {
        "Thunderstorm with hail"@
    } else {
        "Unknown"@
    }
}

/// Maps a weather code to its condition text, exactly as
/// `spec_weather_description` states.
pub fn weather_code_to_description(code: u32) -> (r: &'static str)
    ensures
        r@ == spec_weather_description(code),
{
    match code {
        0 => "Clear sky",
        1 => "Mainly clear",
        2 => "Partly cloudy",
        3 => "Overcast",
        45 | 48 => "Foggy",
        51 | 53 | 55 => "Drizzle",
        61 | 63 | 65 => "Rain",
        71 | 73 | 75 => "Snow",
        77 => "Snow grains",
        80 | 81 | 82 => "Rain showers",
        85 | 86 => "Snow showers",
        95 => "Thunderstorm",
        96 | 99 => "Thunderstorm with hail",
        _ => "Unknown",
    }
}

} // verus!
