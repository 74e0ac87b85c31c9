//! Recorded strokes in the forms in which they are stored.

pub mod jsonl;
pub mod ndjson;
pub mod svg;
