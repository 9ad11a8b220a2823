use vstd::prelude::*;

verus! {

/// One stored weather measurement.
///
/// The three sensor values are carried as the bit patterns of the `f64`
/// values that the station sent (`f64::to_bits`); nothing here computes with
/// them, they only travel from storage to the answer.
#[derive(Debug, Clone)]
pub struct WeatherReading {
    pub id: i64,
    /// Bit pattern of the temperature in degrees Celsius.
    pub temperature: u64,
    /// Bit pattern of the relative humidity in percent.
    pub humidity: u64,
    /// Bit pattern of the wind speed.
    pub wind_speed: u64,
    /// RFC 3339 text of the moment the server stored the measurement.
    pub recorded_at: String,
}

/// The mathematical value of a [`WeatherReading`].
#[verifier::ext_equal]
pub struct WeatherReadingView {
    pub id: i64,
    pub temperature: u64,
    pub humidity: u64,
    pub wind_speed: u64,
    pub recorded_at: Seq<char>,
}

impl View for WeatherReading {
    type V = WeatherReadingView;

    open spec fn view(&self) -> WeatherReadingView {
        WeatherReadingView {
            id: self.id,
            temperature: self.temperature,
            humidity: self.humidity,
            wind_speed: self.wind_speed,
            recorded_at: self.recorded_at@,
        }
    }
}

/// Filters of a history request, as they arrive in the query string.
#[derive(Debug, Clone)]
pub struct WeatherHistoryQuery {
    /// RFC 3339 lower bound (inclusive) of the recording time.
    pub from: Option<String>,
    /// RFC 3339 upper bound (exclusive) of the recording time.
    pub to: Option<String>,
    /// Largest number of readings in one page.
    pub limit: Option<u32>,
    /// Only readings whose id is below this one.
    pub cursor: Option<i64>,
}

/// One page of the history, newest first, with the cursor of the next page.
#[derive(Debug, Clone)]
pub struct WeatherHistoryResponse {
    pub items: Vec<WeatherReading>,
    pub next_cursor: Option<i64>,
}

/// The most recent reading, if any was stored.
#[derive(Debug, Clone)]
pub struct LatestWeatherResponse {
    pub item: Option<WeatherReading>,
}

} // verus!
