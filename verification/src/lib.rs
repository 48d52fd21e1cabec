//! The request and reply logic of the HIPPMEM memory engine bindings:
//! turning the names and identifiers a caller passes into the engine's
//! arguments, and the engine's identifiers back into text.
pub mod content;
pub mod decimal;
pub mod error;
pub mod ids;
pub mod request;
pub mod text;
