//! Reader for the `.onflight` binary data logs written by the OnFlight Hub.
//!
//! A log is a fixed-size metadata block followed by a run of fixed-size
//! 50 Hz data frames. [`parse`] decodes it into row-oriented [`Frame`]s;
//! [`Columns::from_file`] transposes those rows into one vector per field.
//! Every field keeps its raw integer encoding; no floating point is used.

pub mod checksum;
pub mod columnar;
pub mod frame;
pub mod parser;

pub use checksum::fletcher16;
pub use columnar::Columns;
pub use frame::Frame;
pub use parser::{parse, FileHeader, OnFlightFile, ParseError, ParseOptions};
