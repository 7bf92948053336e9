//! Stock-quote exporter core: decoding upstream quotes, publishing them as
//! labelled gauges, validating the start-up configuration and scheduling the
//! polling rounds.

pub mod engine;
pub mod json;
pub mod metrics;
pub mod options;
pub mod quote;
pub mod upstream;
