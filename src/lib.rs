//! Decoding of line-oriented RUSMARC exchange records into typed fields.
//!
//! The text flows through three stages:
//! - `field`: one line becomes a field (a number and either a full text or marker-tagged
//!   subfields), a malformed line, or nothing; `FieldsReader` walks the lines of a text.
//! - `record`: `RecordsReader` groups lines into records, which a line of `*` ends.
//! - `typed_record`: a registry maps field numbers to parsers, and `TypedRecord` keeps the
//!   fields that parse, with one error for each field that does not.
//!
//! `laws` states and proves properties that tie these stages together.

pub mod text;
pub mod field;
pub mod record;
pub mod typed_record;
pub mod laws;
