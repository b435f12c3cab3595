use vstd::prelude::*;

use crate::address::Address;
use crate::error::BetError;
use crate::state::bet::{Bet, BetStatus};
use crate::state::profile::Profile;
use crate::state::treasury::{scaled_stake, Transfer, Treasury};

verus! {

/// The records that taking the other side of a bet reads and writes.
#[derive(Clone, Copy)]
pub struct AcceptBet {
    pub acceptor: Address,
    pub creator: Address,
    /// The acceptor's profile.
    pub acceptor_profile: Profile,
    pub bet: Bet,
    pub treasury: Treasury,
}

impl AcceptBet {
    /// Why accepting is refused, checked in this order; `None` where it goes through.
    pub open spec fn spec_rejection(self, now: i64) -> Option<BetError> {
        if self.acceptor_profile.wallet != self.acceptor {
            Some(BetError::InvalidProfileOwner)
        } else if self.bet.creator != self.creator {
            Some(BetError::InvalidBetCreator)
        } else if self.bet.creator == self.acceptor {
            Some(BetError::CannotAcceptOwnBet)
        } else if !(self.bet.status is Open) {
            Some(BetError::InvalidBetStatus)
        } else if self.bet.acceptor is Some {
            Some(BetError::BetAlreadyAccepted)
        } else if self.bet.expires_at <= now {
            Some(BetError::BetExpired)
        } else if !self.spec_stake_fits() {
            Some(BetError::ArithmeticOverflow)
        } else {
            None
        }
    }

    /// The acceptor's stake, the new escrow balance and the acceptor's count
    /// all fit their types.
    pub open spec fn spec_stake_fits(self) -> bool {
        &&& self.bet.odds_lose > 0
        &&& self.bet.spec_acceptor_stake() <= u64::MAX
        &&& self.treasury.balance + self.bet.spec_acceptor_stake() <= u64::MAX
        &&& self.acceptor_profile.total_bets_accepted_count + 1 <= u32::MAX
    }

    /// The records after acceptance: the bet is Accepted by the acceptor at
    /// `now`, the escrow holds the acceptor's stake too, and the acceptor's
    /// profile counts one more accepted bet.
    pub open spec fn spec_accepted(self, now: i64) -> AcceptBet {
        AcceptBet {
            acceptor_profile: Profile {
                total_bets_accepted_count: (self.acceptor_profile.total_bets_accepted_count
                    + 1) as u32,
                ..self.acceptor_profile
            },
            bet: Bet {
                acceptor: Some(self.acceptor),
                status: BetStatus::Accepted,
                accepted_at: Some(now),
                ..self.bet
            },
            treasury: Treasury {
                balance: (self.treasury.balance + self.bet.spec_acceptor_stake()) as u64,
            },
            ..self
        }
    }
}

/// Takes the other side of an open, unexpired bet: the acceptor deposits the
/// creator's stake scaled by the odds, `floor(bet_amount * odds_win / odds_lose)`.
/// Returns the deposit that the caller carries out.
pub fn accept_bet(ctx: &mut AcceptBet, now: i64) -> (r: Result<Transfer, BetError>)
    ensures
        r is Ok <==> old(ctx).spec_rejection(now) is None,
        r matches Err(e) ==> old(ctx).spec_rejection(now) == Some(e) && *final(ctx) == *old(ctx),
        r is Ok ==> *final(ctx) == old(ctx).spec_accepted(now),
        r matches Ok(t) ==> t == (Transfer::Deposit {
            from: old(ctx).acceptor,
            amount: old(ctx).bet.spec_acceptor_stake() as u64,
        }),
        r is Ok ==> old(ctx).bet.status.spec_can_step_to(final(ctx).bet.status),
        old(ctx).bet.wf() ==> final(ctx).bet.wf(),
        old(ctx).bet.escrow_matches(old(ctx).treasury) ==> final(ctx).bet.escrow_matches(
            final(ctx).treasury,
        ),
{
    if ctx.acceptor_profile.wallet != ctx.acceptor {
        return Err(BetError::InvalidProfileOwner);
    }
    if ctx.bet.creator != ctx.creator {
        return Err(BetError::InvalidBetCreator);
    }
    if ctx.bet.creator == ctx.acceptor {
        return Err(BetError::CannotAcceptOwnBet);
    }
    if ctx.bet.status != BetStatus::Open {
        return Err(BetError::InvalidBetStatus);
    }
    if ctx.bet.acceptor.is_some() {
        return Err(BetError::BetAlreadyAccepted);
    }
    if ctx.bet.expires_at <= now {
        return Err(BetError::BetExpired);
    }
    let amount: u64 = match scaled_stake(ctx.bet.bet_amount, ctx.bet.odds_win, ctx.bet.odds_lose) {
        Ok(v) => v,
        Err(e) => return Err(e),
    };
    if ctx.treasury.balance > u64::MAX - amount {
        return Err(BetError::ArithmeticOverflow);
    }
    let count: u32 = match ctx.acceptor_profile.total_bets_accepted_count.checked_add(1) {
        Some(c) => c,
        None => return Err(BetError::ArithmeticOverflow),
    };
    let deposited = ctx.treasury.deposit(amount);
    assert(deposited is Ok);
    ctx.bet.acceptor = Some(ctx.acceptor);
    ctx.bet.status = BetStatus::Accepted;
    ctx.bet.accepted_at = Some(now);
    ctx.acceptor_profile.total_bets_accepted_count = count;
    Ok(Transfer::Deposit { from: ctx.acceptor, amount })
}

} // verus!
