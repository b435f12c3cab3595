//! Properties that relate the operations of the ledger to one another.

use vstd::prelude::*;

use crate::address::Address;
use crate::error::BetError;
use crate::instructions::accept_bet::AcceptBet;
use crate::instructions::cancel_bet::CancelBet;
use crate::instructions::create_bet::CreateBet;
use crate::instructions::delete_bet::DeleteBet;
use crate::instructions::resolve_bet::ResolveBet;
use crate::state::profile::Profile;
use crate::state::treasury::{scaled_stake_spec, Transfer, Treasury};

verus! {

/// Accepting a bet goes through exactly when the bet is Open, has no acceptor,
/// has not expired and the acceptor is not its creator (for records handed
/// over consistently and amounts that fit their types). After it the escrow
/// of a consistent bet holds the creator's stake plus the odds-scaled stake.
pub proof fn lemma_accept_succeeds_iff(ctx: AcceptBet, now: i64)
    requires
        ctx.acceptor_profile.wallet == ctx.acceptor,
        ctx.bet.creator == ctx.creator,
        ctx.spec_stake_fits(),
    ensures
        ctx.spec_rejection(now) is None <==> {
            &&& ctx.bet.status is Open
            &&& ctx.bet.acceptor is None
            &&& now < ctx.bet.expires_at
            &&& ctx.acceptor != ctx.bet.creator
        },
        ctx.spec_rejection(now) is None && ctx.bet.escrow_matches(ctx.treasury) ==> ctx.spec_accepted(
            now,
        ).treasury.balance == ctx.bet.bet_amount + scaled_stake_spec(
            ctx.bet.bet_amount,
            ctx.bet.odds_win,
            ctx.bet.odds_lose,
        ),
{
}

/// Settling is possible only from Accepted, and it empties the escrow into the
/// winner's account: for a consistent bet the payout is the creator's stake
/// plus the acceptor's odds-scaled stake.
pub proof fn lemma_resolution_pays_whole_escrow(ctx: ResolveBet, winner_is_creator: bool, now: i64)
    requires
        ctx.bet.escrow_matches(ctx.treasury),
    ensures
        ctx.spec_rejection(winner_is_creator) is None ==> {
            &&& ctx.bet.status is Accepted
            &&& ctx.spec_resolved(winner_is_creator, now).treasury.balance == 0
            &&& ctx.treasury.balance == ctx.bet.bet_amount + ctx.bet.spec_acceptor_stake()
        },
{
}

/// A settlement moves the winner's profit up by the odds-scaled stake and the
/// loser's down by the creator's stake, both in the one step; no other
/// accumulator changes.
pub proof fn lemma_profit_deltas(ctx: ResolveBet, winner_is_creator: bool, now: i64)
    requires
        ctx.spec_rejection(winner_is_creator) is None,
    ensures
        ({
            let after = ctx.spec_resolved(winner_is_creator, now);
            let payout = scaled_stake_spec(ctx.bet.bet_amount, ctx.bet.odds_win, ctx.bet.odds_lose);
            let stake = ctx.bet.bet_amount as int;
            &&& after.creator_profile.total_accepted_bet_profit
                == ctx.creator_profile.total_accepted_bet_profit
            &&& after.acceptor_profile.total_my_bet_profit == ctx.acceptor_profile.total_my_bet_profit
            &&& winner_is_creator ==> {
                &&& after.creator_profile.total_my_bet_profit == ctx.creator_profile.total_my_bet_profit
                    + payout
                &&& after.acceptor_profile.total_accepted_bet_profit
                    == ctx.acceptor_profile.total_accepted_bet_profit - stake
                &&& after.creator_profile.total_my_bet_wins == ctx.creator_profile.total_my_bet_wins
                    + 1
                &&& after.acceptor_profile.total_accepted_bet_losses
                    == ctx.acceptor_profile.total_accepted_bet_losses + 1
            }
            &&& !winner_is_creator ==> {
                &&& after.acceptor_profile.total_accepted_bet_profit
                    == ctx.acceptor_profile.total_accepted_bet_profit + payout
                &&& after.creator_profile.total_my_bet_profit == ctx.creator_profile.total_my_bet_profit
                    - stake
                &&& after.acceptor_profile.total_accepted_bet_wins
                    == ctx.acceptor_profile.total_accepted_bet_wins + 1
                &&& after.creator_profile.total_my_bet_losses == ctx.creator_profile.total_my_bet_losses
                    + 1
            }
        }),
{
}

/// At even odds the payout equals the stake it is set against.
pub proof fn lemma_even_money_payout(stake: u64)
    ensures
        scaled_stake_spec(stake, 1, 1) == stake,
{
}

/// Cancelling a bet straight after creating it goes through for its creator
/// and refunds exactly the stake that creation took in, leaving the escrow
/// empty: the creator's own account ends where it started.
pub proof fn lemma_cancel_refunds_creation_deposit(
    create: CreateBet,
    bet_amount: u64,
    description: [u8; 128],
    referee_type: u8,
    category: u8,
    odds_win: u64,
    odds_lose: u64,
    expires_at: i64,
    bet_available_to: u8,
    private_bet_recipient: Option<Address>,
    now: i64,
    bump: u8,
    profile: Profile,
)
    requires
        create.spec_rejection(referee_type, odds_win, odds_lose, expires_at, now) is None,
        profile.wallet == create.creator,
    ensures
        ({
            let bet = create.spec_new_bet(
                bet_amount,
                description,
                referee_type,
                category,
                odds_win,
                odds_lose,
                expires_at,
                bet_available_to,
                private_bet_recipient,
                now,
                bump,
            );
            let cancel = CancelBet {
                creator: create.creator,
                profile,
                bet,
                treasury: Treasury { balance: bet_amount },
            };
            let deposit = Transfer::Deposit { from: create.creator, amount: bet_amount };
            let refund = Transfer::Payout { to: create.creator, amount: cancel.treasury.balance };
            &&& cancel.spec_rejection() is None
            &&& cancel.spec_cancelled().treasury.balance == 0
            &&& deposit.spec_gain(create.creator) + refund.spec_gain(create.creator) == 0
        }),
{
}

/// Reclaiming is refused with `InvalidBetStatus` while a bet is Open or
/// Accepted; for a consistent bet it goes through once the bet is Cancelled
/// or Resolved (its escrow then being empty), given its creator.
pub proof fn lemma_delete_only_after_settlement(ctx: DeleteBet)
    requires
        ctx.bet.escrow_matches(ctx.treasury),
    ensures
        (ctx.bet.status is Open || ctx.bet.status is Accepted) ==> ctx.spec_rejection() == Some(
            BetError::InvalidBetStatus,
        ),
        ctx.spec_rejection() is None <==> (ctx.bet.status.spec_is_terminal() && ctx.bet.creator
            == ctx.creator),
{
}

} // verus!
