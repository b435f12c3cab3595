//! The operations of the ledger. Each takes the records it touches and either
//! applies all of its effects or, refused, leaves every record unchanged.

pub mod accept_bet;
pub mod accept_friend;
pub mod add_friend;
pub mod cancel_bet;
pub mod create_bet;
pub mod create_profile;
pub mod delete_bet;
pub mod resolve_bet;
