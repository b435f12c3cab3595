use vstd::prelude::*;

use crate::address::Address;
use crate::error::BetError;
use crate::state::bet::Bet;
use crate::state::treasury::Treasury;

verus! {

/// The records that reclaiming a settled bet reads. Anyone may ask.
#[derive(Clone, Copy)]
pub struct DeleteBet {
    pub signer: Address,
    /// Receives what reclaiming the bet record frees.
    pub creator: Address,
    pub bet: Bet,
    pub treasury: Treasury,
}

impl DeleteBet {
    /// Why reclaiming is refused, checked in this order; `None` where it goes through.
    pub open spec fn spec_rejection(self) -> Option<BetError> {
        if !self.bet.status.spec_is_terminal() {
            Some(BetError::InvalidBetStatus)
        } else if self.treasury.balance != 0 {
            Some(BetError::InvalidBetStatus)
        } else if self.bet.creator != self.creator {
            Some(BetError::InvalidBetCreator)
        } else {
            None
        }
    }
}

/// Decides whether a bet record may be reclaimed: only once it is Cancelled or
/// Resolved and its escrow is empty, with the proceeds going to its creator.
/// The caller removes the record on `Ok`.
pub fn delete_bet(ctx: &DeleteBet) -> (r: Result<(), BetError>)
    ensures
        r is Ok <==> ctx.spec_rejection() is None,
        r matches Err(e) ==> ctx.spec_rejection() == Some(e),
        r is Ok ==> ctx.bet.status.spec_is_terminal() && ctx.treasury.balance == 0,
{
    if !ctx.bet.status.is_terminal() {
        return Err(BetError::InvalidBetStatus);
    }
    if ctx.treasury.balance != 0 {
        return Err(BetError::InvalidBetStatus);
    }
    if ctx.bet.creator != ctx.creator {
        return Err(BetError::InvalidBetCreator);
    }
    Ok(())
}

} // verus!
