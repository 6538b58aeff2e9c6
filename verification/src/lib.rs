//! Payment proposals for a NEAR treasury (DAO): the decisions, identifiers and
//! proposal payloads of the `payments send` flow, with their contracts.
pub mod text;
pub mod json;
pub mod asset;
pub mod markdown;
pub mod error;
pub mod context;
pub mod destination;
pub mod proposal;
pub mod send;
pub mod laws;
pub mod payment_laws;
