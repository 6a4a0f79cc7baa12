//! A speedtest exporter library: decodes the JSON result of a network-speed
//! probe into a typed measurement, converts its millisecond quantities to
//! fixed-point seconds, and projects the measurement onto a registry of
//! labelled gauges that an HTTP scrape endpoint can render.

pub mod config;
pub mod json;
pub mod metrics;
pub mod numbers;
pub mod speedtest;
pub mod state;
