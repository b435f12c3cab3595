//! The records the ledger keeps.

pub mod bet;
pub mod friend;
pub mod profile;
pub mod treasury;
