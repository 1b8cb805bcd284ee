//! Verified core of a telemetry ingestion pipeline: event classification,
//! schema-driven field extraction, unit conversion, and normalized-record
//! building for weather-station and environmental-sensor readings.
//!
//! Numeric readings are carried as fixed-point integers in micro-units
//! (one unit = 1_000_000), so every conversion and derived metric has an
//! exact, machine-checked definition.

pub mod classify;
pub mod pipeline;
pub mod raw;
pub mod record;
pub mod remote;
pub mod schema;
pub mod text;
pub mod vpd;
pub mod units;
