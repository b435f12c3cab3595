use vstd::prelude::*;

use crate::address::Address;
use crate::constants::{FRIEND_STATUS_ACCEPTED, FRIEND_STATUS_REQUESTED};
use crate::error::BetError;
use crate::state::friend::Friend;

verus! {

/// The records that answering a friend request reads and writes.
#[derive(Clone, Copy)]
pub struct AcceptFriend {
    pub user: Address,
    pub friend_account: Friend,
}

impl AcceptFriend {
    /// Why answering is refused; `None` where it goes through. The user must be
    /// one side of the relation and the other side must have asked.
    pub open spec fn spec_rejection(self) -> Option<BetError> {
        let f = self.friend_account;
        if f.user_a_wallet != self.user && f.user_b_wallet != self.user {
            Some(BetError::InvalidProfileOwner)
        } else if f.user_a_wallet == self.user {
            if f.user_b_status != FRIEND_STATUS_REQUESTED {
                Some(BetError::InvalidBetStatus)
            } else {
                None
            }
        } else if f.user_a_status != FRIEND_STATUS_REQUESTED {
            Some(BetError::InvalidBetStatus)
        } else {
            None
        }
    }
}

/// Accepts the other side's friend request: both sides become accepted.
pub fn accept_friend(ctx: &mut AcceptFriend) -> (r: Result<(), BetError>)
    ensures
        r is Ok <==> old(ctx).spec_rejection() is None,
        r matches Err(e) ==> old(ctx).spec_rejection() == Some(e) && *final(ctx) == *old(ctx),
        r is Ok ==> *final(ctx) == (AcceptFriend {
            friend_account: Friend {
                user_a_status: FRIEND_STATUS_ACCEPTED,
                user_b_status: FRIEND_STATUS_ACCEPTED,
                ..old(ctx).friend_account
            },
            ..*old(ctx)
        }),
{
    let is_a: bool = ctx.friend_account.user_a_wallet == ctx.user;
    if !is_a && ctx.friend_account.user_b_wallet != ctx.user {
        return Err(BetError::InvalidProfileOwner);
    }
    let asked: u8 = if is_a {
        ctx.friend_account.user_b_status
    } else {
        ctx.friend_account.user_a_status
    };
    if asked != FRIEND_STATUS_REQUESTED {
        return Err(BetError::InvalidBetStatus);
    }
    ctx.friend_account.user_a_status = FRIEND_STATUS_ACCEPTED;
    ctx.friend_account.user_b_status = FRIEND_STATUS_ACCEPTED;
    Ok(())
}

} // verus!
