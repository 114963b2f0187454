//! Resolves a US postal code to a place and reads the current weather there.
//!
//! The network requests themselves are made by the caller; this library
//! builds the request addresses, judges the responses and renders the report.

pub mod fields;
pub mod forecast;
pub mod json;
pub mod location;
pub mod report;
