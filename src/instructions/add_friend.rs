use vstd::prelude::*;

use crate::address::Address;
use crate::constants::{FRIEND_STATUS_NONE, FRIEND_STATUS_REQUESTED, RECORD_VERSION};
use crate::error::BetError;
use crate::state::friend::Friend;
use crate::state::profile::Profile;

verus! {

/// The records that a friend request reads.
#[derive(Clone, Copy)]
pub struct AddFriend {
    pub user: Address,
    pub user_profile: Profile,
    pub friend_profile: Profile,
}

impl AddFriend {
    /// Why the request is refused; `None` where it goes through.
    pub open spec fn spec_rejection(self) -> Option<BetError> {
        if self.user_profile.wallet != self.user {
            Some(BetError::InvalidProfileOwner)
        } else if self.user_profile.wallet == self.friend_profile.wallet {
            Some(BetError::InvalidProfileOwner)
        } else {
            None
        }
    }

    /// The new relation: requested by the user, not yet answered by the friend.
    pub open spec fn spec_request(self, now: i64, bump: u8) -> Friend {
        Friend {
            user_a_wallet: self.user,
            user_a_username: self.user_profile.name,
            user_a_status: FRIEND_STATUS_REQUESTED,
            user_b_wallet: self.friend_profile.wallet,
            user_b_username: self.friend_profile.name,
            user_b_status: FRIEND_STATUS_NONE,
            created_at: now,
            version: RECORD_VERSION,
            bump,
        }
    }
}

/// Records a friend request from the owner of `user_profile` to the owner of
/// `friend_profile`. Nobody may befriend themselves.
pub fn add_friend(ctx: &AddFriend, now: i64, bump: u8) -> (r: Result<Friend, BetError>)
    ensures
        r is Ok <==> ctx.spec_rejection() is None,
        r matches Err(e) ==> ctx.spec_rejection() == Some(e),
        r matches Ok(f) ==> f == ctx.spec_request(now, bump),
{
    if ctx.user_profile.wallet != ctx.user {
        return Err(BetError::InvalidProfileOwner);
    }
    if ctx.user_profile.wallet == ctx.friend_profile.wallet {
        return Err(BetError::InvalidProfileOwner);
    }
    Ok(
        Friend {
            user_a_wallet: ctx.user,
            user_a_username: ctx.user_profile.name,
            user_a_status: FRIEND_STATUS_REQUESTED,
            user_b_wallet: ctx.friend_profile.wallet,
            user_b_username: ctx.friend_profile.name,
            user_b_status: FRIEND_STATUS_NONE,
            created_at: now,
            version: RECORD_VERSION,
            bump,
        },
    )
}

} // verus!
