//! Error taxonomy and HTTP-response translation for a service backend.
//!
//! The crate classifies failure conditions raised by collaborating
//! subsystems (identifier parsing, persistence access) into a closed set of
//! error kinds, and renders each kind into a wire-level response: a status
//! code together with a JSON body.

pub mod errors;
pub mod wire;
