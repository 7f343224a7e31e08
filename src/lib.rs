//! Typed client core for a package registry's read-only metadata API:
//! identities, wire codecs, npm-compatible name transcoding, and the
//! classification of fetched responses.
pub mod naming;
pub mod error;
pub mod text;
pub mod version;
pub mod time;
pub mod json;
pub mod graph;
pub mod codec;
pub mod info;
pub mod meta;
pub mod package;
pub mod fetcher;
pub mod rfc3339;
pub mod url_codec;
