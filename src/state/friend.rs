use vstd::prelude::*;

use crate::address::Address;

verus! {

/// A pairwise relation between two participants. Each side's status is one
/// of the `FRIEND_STATUS_*` codes: none, requested, accepted.
#[derive(Clone, Copy)]
pub struct Friend {
    pub user_a_wallet: Address,
    pub user_a_username: [u8; 32],
    pub user_a_status: u8,
    pub user_b_wallet: Address,
    pub user_b_username: [u8; 32],
    pub user_b_status: u8,
    pub created_at: i64,
    pub version: u8,
    pub bump: u8,
}

} // verus!
