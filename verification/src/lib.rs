//! Reads a numeric oracle feed value out of an on-chain account buffer and
//! renders it as a single log line.
//!
//! The account buffer starts with a type tag byte that selects the decoding
//! variant: a full aggregator state record, or a fixed-layout fast-parse
//! record. The decoders themselves live in the oracle client library; this
//! crate owns the dispatch, the error taxonomy, the configurable policies
//! (strict tag dispatch vs. always-aggregator, default-to-zero vs. fatal
//! fault on an absent round result) and the shape of the emitted log line.

pub mod config;
pub mod decode;
pub mod errors;
pub mod laws;
pub mod reader;
