//! A peer-to-peer wagering ledger: bets with escrowed stakes, their lifecycle,
//! settlement arithmetic and the per-participant statistics they update.

pub mod address;
pub mod constants;
pub mod error;
pub mod instructions;
pub mod laws;
pub mod state;

pub use address::Address;
pub use error::BetError;
pub use instructions::accept_bet::{accept_bet, AcceptBet};
pub use instructions::accept_friend::{accept_friend, AcceptFriend};
pub use instructions::add_friend::{add_friend, AddFriend};
pub use instructions::cancel_bet::{cancel_bet, CancelBet};
pub use instructions::create_bet::{create_bet, CreateBet};
pub use instructions::create_profile::{create_profile, CreateProfile};
pub use instructions::delete_bet::{delete_bet, DeleteBet};
pub use instructions::resolve_bet::{resolve_bet, ResolveBet};
pub use state::bet::{Bet, BetAvailableTo, BetCategory, BetStatus, RefereeType};
pub use state::friend::Friend;
pub use state::profile::Profile;
pub use state::treasury::{scaled_stake, Transfer, Treasury};
