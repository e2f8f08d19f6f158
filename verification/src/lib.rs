//! Decoding of comma-separated literal argument lists, as supplied at a
//! macro call site, into typed values, with exact-location diagnostics.
//!
//! The host macro engine turns call-site source text into tokens and
//! hands them over as a [`token::Token`] sequence; the
//! [`arg_parser::ArgParser`] enforces the `literal (, literal)*`
//! grammar over them, coerces each literal to the type the entry point
//! requests, and reports the first deviation with the offending
//! token's text and location. On success, [`gen`] renders the decoded
//! address back into constructor source text for the host to emit.

pub mod arg_parser;
pub mod classify;
pub mod driver;
pub mod gen;
pub mod laws;
pub mod numeric;
pub mod render;
pub mod token;
