//! Core logic of a small front-end that issues HTTP requests by invoking an
//! external command-line client: an ordered store of key/value fields, the
//! construction of the tool's argument list (including the JSON-encoded
//! payload), and the interpretation of the tool's captured output.

pub mod fields;
pub mod request;
pub mod state;
