//! The closed set of failures an escrow program reports, and their wire codes.
pub mod errors;

pub use errors::EscrowError;
