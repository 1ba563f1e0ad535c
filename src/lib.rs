//! A typed company fundamentals record and its parser from the JSON
//! document that a market-data service returns for a company overview.
//!
//! - `field`: the schema, one entry per field: its document key and kind.
//! - `json`: the members of the top-level JSON object.
//! - `number`: integer and floating-point literals carried as strings.
//! - `date`: calendar dates.
//! - `overview`: the record, and `parse` from bytes to record.
//! - `laws`: properties of parsing that hold of every document.
pub mod date;
pub mod field;
pub mod json;
pub mod laws;
pub mod number;
pub mod overview;

pub use overview::{parse, Overview, OverviewError};
