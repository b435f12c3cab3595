use vstd::prelude::*;

use crate::address::Address;
use crate::error::BetError;
use crate::state::bet::{Bet, BetStatus};
use crate::state::profile::Profile;
use crate::state::treasury::{scaled_stake, Transfer, Treasury};

verus! {

/// The records that settling a bet reads and writes.
#[derive(Clone, Copy)]
pub struct ResolveBet {
    /// Who asks for the settlement; must be the bet's referee.
    pub resolver: Address,
    pub creator: Address,
    pub acceptor: Address,
    pub creator_profile: Profile,
    pub acceptor_profile: Profile,
    pub bet: Bet,
    pub treasury: Treasury,
}

impl ResolveBet {
    /// The side that wins.
    pub open spec fn spec_winner(self, winner_is_creator: bool) -> Address {
        if winner_is_creator {
            self.creator
        } else {
            self.acceptor
        }
    }

    /// The creator's profit delta: the payout when the creator wins, minus the
    /// creator's stake when the creator loses.
    pub open spec fn spec_creator_delta(self, winner_is_creator: bool) -> int {
        if winner_is_creator {
            self.bet.spec_acceptor_stake()
        } else {
            -self.bet.bet_amount
        }
    }

    /// The acceptor's profit delta: the payout when the acceptor wins, minus
    /// the creator's stake when the acceptor loses.
    pub open spec fn spec_acceptor_delta(self, winner_is_creator: bool) -> int {
        if winner_is_creator {
            -self.bet.bet_amount
        } else {
            self.bet.spec_acceptor_stake()
        }
    }

    /// The settlement arithmetic fits the types of the records.
    pub open spec fn spec_settlement_fits(self, winner_is_creator: bool) -> bool {
        &&& self.bet.odds_lose > 0
        &&& self.bet.spec_acceptor_stake() <= i64::MAX
        &&& self.bet.bet_amount <= i64::MAX
        &&& self.creator_profile.spec_can_record_outcome(
            true,
            winner_is_creator,
            self.spec_creator_delta(winner_is_creator),
        )
        &&& self.acceptor_profile.spec_can_record_outcome(
            false,
            !winner_is_creator,
            self.spec_acceptor_delta(winner_is_creator),
        )
    }

    /// Why settling is refused, checked in this order; `None` where it goes through.
    pub open spec fn spec_rejection(self, winner_is_creator: bool) -> Option<BetError> {
        if self.creator_profile.wallet != self.creator || self.acceptor_profile.wallet
            != self.acceptor {
            Some(BetError::InvalidProfileOwner)
        } else if self.bet.creator != self.creator {
            Some(BetError::InvalidBetCreator)
        } else if !(self.bet.status is Accepted) {
            Some(BetError::InvalidBetStatus)
        } else if self.bet.acceptor != Some(self.acceptor) {
            Some(BetError::BetNotAccepted)
        } else if self.resolver != self.bet.referee {
            Some(BetError::Unauthorized)
        } else if !self.spec_settlement_fits(winner_is_creator) {
            Some(BetError::ArithmeticOverflow)
        } else {
            None
        }
    }

    /// The records after a settlement: the bet is Resolved with its winner and
    /// time, the escrow is empty, and both profiles record the outcome.
    pub open spec fn spec_resolved(self, winner_is_creator: bool, now: i64) -> ResolveBet {
        ResolveBet {
            creator_profile: self.creator_profile.spec_record_outcome(
                true,
                winner_is_creator,
                self.spec_creator_delta(winner_is_creator),
            ),
            acceptor_profile: self.acceptor_profile.spec_record_outcome(
                false,
                !winner_is_creator,
                self.spec_acceptor_delta(winner_is_creator),
            ),
            bet: Bet {
                winner: Some(self.spec_winner(winner_is_creator)),
                status: BetStatus::Resolved,
                resolved_at: Some(now),
                ..self.bet
            },
            treasury: Treasury { balance: 0 },
            ..self
        }
    }
}

/// Settles an accepted bet in favour of the creator or of the acceptor: the
/// whole escrow goes to the winner, the winner's profit grows by the odds-scaled
/// stake and the loser's shrinks by the creator's stake. Only the bet's referee
/// may settle it.
pub fn resolve_bet(ctx: &mut ResolveBet, winner_is_creator: bool, now: i64) -> (r: Result<
    Transfer,
    BetError,
>)
    ensures
        r is Ok <==> old(ctx).spec_rejection(winner_is_creator) is None,
        r matches Err(e) ==> old(ctx).spec_rejection(winner_is_creator) == Some(e) && *final(ctx)
            == *old(ctx),
        r is Ok ==> *final(ctx) == old(ctx).spec_resolved(winner_is_creator, now),
        r matches Ok(t) ==> t == (Transfer::Payout {
            to: old(ctx).spec_winner(winner_is_creator),
            amount: old(ctx).treasury.balance,
        }),
        r is Ok ==> old(ctx).bet.status.spec_can_step_to(final(ctx).bet.status),
        r is Ok ==> final(ctx).treasury.balance == 0,
        old(ctx).bet.wf() ==> final(ctx).bet.wf(),
        old(ctx).bet.escrow_matches(old(ctx).treasury) ==> final(ctx).bet.escrow_matches(
            final(ctx).treasury,
        ),
{
    if ctx.creator_profile.wallet != ctx.creator || ctx.acceptor_profile.wallet != ctx.acceptor {
        return Err(BetError::InvalidProfileOwner);
    }
    if ctx.bet.creator != ctx.creator {
        return Err(BetError::InvalidBetCreator);
    }
    if ctx.bet.status != BetStatus::Accepted {
        return Err(BetError::InvalidBetStatus);
    }
    let bound: bool = match ctx.bet.acceptor {
        Some(a) => a == ctx.acceptor,
        None => false,
    };
    if !bound {
        return Err(BetError::BetNotAccepted);
    }
    if ctx.resolver != ctx.bet.referee {
        return Err(BetError::Unauthorized);
    }
    let payout: u64 = match scaled_stake(ctx.bet.bet_amount, ctx.bet.odds_win, ctx.bet.odds_lose) {
        Ok(v) => v,
        Err(e) => return Err(e),
    };
    if payout > i64::MAX as u64 || ctx.bet.bet_amount > i64::MAX as u64 {
        return Err(BetError::ArithmeticOverflow);
    }
    let gain: i64 = payout as i64;
    let loss: i64 = -(ctx.bet.bet_amount as i64);
    let creator_delta: i64 = if winner_is_creator {
        gain
    } else {
        loss
    };
    let acceptor_delta: i64 = if winner_is_creator {
        loss
    } else {
        gain
    };
    let creator_profile: Profile = match ctx.creator_profile.record_outcome(
        true,
        winner_is_creator,
        creator_delta,
    ) {
        Ok(p) => p,
        Err(e) => return Err(e),
    };
    let acceptor_profile: Profile = match ctx.acceptor_profile.record_outcome(
        false,
        !winner_is_creator,
        acceptor_delta,
    ) {
        Ok(p) => p,
        Err(e) => return Err(e),
    };
    let winner: Address = if winner_is_creator {
        ctx.creator
    } else {
        ctx.acceptor
    };
    ctx.creator_profile = creator_profile;
    ctx.acceptor_profile = acceptor_profile;
    ctx.bet.winner = Some(winner);
    ctx.bet.status = BetStatus::Resolved;
    ctx.bet.resolved_at = Some(now);
    let amount: u64 = ctx.treasury.drain();
    Ok(Transfer::Payout { to: winner, amount })
}

} // verus!
