//! Current weather conditions for one station: where the station's document
//! lives, the instant its readings were taken, and the readings as JSON.

pub mod args;
pub mod error;
pub mod instant;
pub mod json;
pub mod json_value;
pub mod laws;
pub mod number;
pub mod report;
pub mod serialize;
pub mod transport;
pub mod weather_data;
