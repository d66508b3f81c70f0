//! Core logic of a wallhaven.cc command-line client: the search query
//! grammar, preference resolution against a stored credential, request
//! URL construction, and typed decoding of the API's JSON responses.
//!
//! The surrounding program supplies what this crate deliberately leaves
//! out: argument parsing, the HTTP transport, parsing response text into
//! the [`json::Json`] tree, and writing downloaded files.

pub mod decode;
pub mod json;
pub mod model;
pub mod orchestrate;
pub mod prefs;
pub mod query;
pub mod request;
pub mod strutil;
pub mod wallpaper;

pub use strutil::string_from_chars;
