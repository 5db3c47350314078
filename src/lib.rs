//! Builds the metadata of a DIP-721 token and interprets the replies of the
//! remote ledger's capability query and mint call.

pub mod types;
pub mod error;
pub mod metadata;
pub mod primitives;
pub mod protocol;
