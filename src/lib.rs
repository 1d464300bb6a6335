//! Typed builders for charting-library traces, and the JSON they serialize to.
//!
//! Every value here serializes through `json::JsonSerialize`, whose contract gives the exact
//! JSON text as a function of the value; the trace types build that text member by member,
//! leaving out the fields that are not set.
pub mod json;
pub mod number;
pub mod color;
pub mod private;
pub mod common;
pub mod traces;
pub mod scatter;
pub mod plot;
