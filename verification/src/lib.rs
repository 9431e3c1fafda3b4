//! A declarative binary-format parsing engine.
//!
//! A record type ("Struct") is an ordered list of typed field descriptors
//! ("Retrievers"). The engine reads a byte stream into a per-parse value
//! table according to each field's version range, repeat count and
//! inter-field dependencies, the latter expressed as small declarative
//! programs ("Combinators") that run after a field has been decoded.

pub mod combinators;
pub mod errors;
pub mod ordering;
pub mod retrievers;
pub mod types;
