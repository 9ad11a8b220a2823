//! Shared protocol models, the server's request and storage logic, and the
//! client's request logic of a small weather-station service.
pub mod client;
pub mod logging;
pub mod protocol;
pub mod server;
