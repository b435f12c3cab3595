use vstd::prelude::*;

use crate::address::Address;
use crate::error::BetError;
use crate::state::bet::{Bet, BetStatus};
use crate::state::profile::Profile;
use crate::state::treasury::{Transfer, Treasury};

verus! {

/// The records that withdrawing an unaccepted bet reads and writes.
#[derive(Clone, Copy)]
pub struct CancelBet {
    pub creator: Address,
    /// The creator's profile.
    pub profile: Profile,
    pub bet: Bet,
    pub treasury: Treasury,
}

impl CancelBet {
    /// Why cancelling is refused, checked in this order; `None` where it goes through.
    pub open spec fn spec_rejection(self) -> Option<BetError> {
        if self.profile.wallet != self.creator {
            Some(BetError::InvalidProfileOwner)
        } else if self.bet.creator != self.creator {
            Some(BetError::Unauthorized)
        } else if !(self.bet.status is Open) {
            Some(BetError::InvalidBetStatus)
        } else if self.bet.acceptor is Some {
            Some(BetError::BetAlreadyAccepted)
        } else {
            None
        }
    }

    /// The records after cancelling: the bet is Cancelled and its escrow empty.
    pub open spec fn spec_cancelled(self) -> CancelBet {
        CancelBet {
            bet: Bet { status: BetStatus::Cancelled, ..self.bet },
            treasury: Treasury { balance: 0 },
            ..self
        }
    }
}

/// Withdraws a bet that nobody has accepted: the whole escrow goes back to
/// the creator and the bet is Cancelled. Returns the refund that the caller
/// carries out.
pub fn cancel_bet(ctx: &mut CancelBet) -> (r: Result<Transfer, BetError>)
    ensures
        r is Ok <==> old(ctx).spec_rejection() is None,
        r matches Err(e) ==> old(ctx).spec_rejection() == Some(e) && *final(ctx) == *old(ctx),
        r is Ok ==> *final(ctx) == old(ctx).spec_cancelled(),
        r matches Ok(t) ==> t == (Transfer::Payout {
            to: old(ctx).creator,
            amount: old(ctx).treasury.balance,
        }),
        r is Ok ==> old(ctx).bet.acceptor is None && final(ctx).treasury.balance == 0,
        r is Ok ==> old(ctx).bet.status.spec_can_step_to(final(ctx).bet.status),
        old(ctx).bet.wf() ==> final(ctx).bet.wf(),
        old(ctx).bet.escrow_matches(old(ctx).treasury) ==> final(ctx).bet.escrow_matches(
            final(ctx).treasury,
        ),
{
    if ctx.profile.wallet != ctx.creator {
        return Err(BetError::InvalidProfileOwner);
    }
    if ctx.bet.creator != ctx.creator {
        return Err(BetError::Unauthorized);
    }
    if ctx.bet.status != BetStatus::Open {
        return Err(BetError::InvalidBetStatus);
    }
    if ctx.bet.acceptor.is_some() {
        return Err(BetError::BetAlreadyAccepted);
    }
    let amount: u64 = ctx.treasury.drain();
    ctx.bet.status = BetStatus::Cancelled;
    Ok(Transfer::Payout { to: ctx.creator, amount })
}

} // verus!
