//! Codec for the Rune token-metadata protocol: a variable-width integer
//! encoding and, on top of it, transfer and issuance records carried in a
//! marker script inside a transaction's first output.

pub mod error;
pub mod rune;
pub mod varint;
