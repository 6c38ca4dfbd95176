//! Turns a spreadsheet's raw cells into a numeric dataset keyed by column
//! header, and frames the exchange with an out-of-process statistics engine.

pub mod text;
pub mod error;
pub mod cell;
pub mod headers;
pub mod dataset;
pub mod table;
pub mod engine;
pub mod input;

pub use cell::RawCell;
