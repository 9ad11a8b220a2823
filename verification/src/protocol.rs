//! Message shapes exchanged between the weather station, the server and the
//! command-line client.
pub mod system;
pub mod weather;

pub use system::{ApiErrorResponse, HealthcheckResponse, VersionResponse};
pub use weather::{
    LatestWeatherResponse, WeatherHistoryQuery, WeatherHistoryResponse, WeatherReading,
    WeatherReadingView,
};

use vstd::prelude::*;

verus! {

/// Name of the request header that carries the shared ingestion key.
pub const INGEST_API_KEY_HEADER: &'static str = "X-API-Key";

} // verus!
