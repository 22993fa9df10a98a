//! Cleaning and typing of the Taipower generation table.
//!
//! The upstream service publishes a JSON document whose `aaData` member is a
//! table of rows, each row an array of cells that mix display markup with
//! sentinel strings. This library rewrites the cells into a clean domain and
//! projects the rewritten document onto a typed snapshot: a timestamp and a
//! sequence of plant records.
pub mod json;
pub mod markup;
pub mod normalize;
pub mod pipeline;
pub mod snapshot;
pub mod timestamp;
