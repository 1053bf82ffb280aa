//! Validated values, JSON records, testbed rows and server configuration
//! of a continuous benchmarking service, with their contracts.

pub mod config;
pub mod ids;
pub mod json;
pub mod testbed;
pub mod valid;
