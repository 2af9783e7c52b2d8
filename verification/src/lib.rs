//! Date-field rewriting for streaming records.
//!
//! A record value carries a date either as its whole text or inside named
//! attributes of a JSON object. The transform reads each date with a source
//! pattern and a fixed hour offset, moves it to UTC and writes it back with an
//! output pattern. Patterns are `strftime` patterns as `chrono` reads them.

pub mod config;
pub mod datetime;
pub mod document;
pub mod error;
pub mod transform;
