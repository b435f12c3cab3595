use vstd::array::{array_fill_for_copy_types, spec_array_fill_for_copy_type};
use vstd::prelude::*;

use crate::address::Address;
use crate::constants::RECORD_VERSION;
use crate::error::BetError;
use crate::state::bet::{referee_type_of_code, Bet, BetStatus, RefereeType};
use crate::state::profile::Profile;
use crate::state::treasury::{Transfer, Treasury};

verus! {

/// The records that opening a bet reads and writes.
#[derive(Clone, Copy)]
pub struct CreateBet {
    pub creator: Address,
    /// The creator's profile.
    pub profile: Profile,
    /// The designated referee; used only for a third-party referee.
    pub referee: Address,
}

impl CreateBet {
    /// Why opening is refused, checked in this order; `None` where it goes through.
    pub open spec fn spec_rejection(
        self,
        referee_type: u8,
        odds_win: u64,
        odds_lose: u64,
        expires_at: i64,
        now: i64,
    ) -> Option<BetError> {
        if self.profile.wallet != self.creator {
            Some(BetError::InvalidProfileOwner)
        } else if !(referee_type_of_code(referee_type) matches Some(k)
            && k.spec_accepted_for_new_bets()) {
            Some(BetError::InvalidRefereeType)
        } else if odds_win == 0 || odds_lose == 0 {
            Some(BetError::InvalidOdds)
        } else if expires_at <= now {
            Some(BetError::InvalidExpiration)
        } else if self.profile.total_my_bet_count + 1 > u32::MAX {
            Some(BetError::ArithmeticOverflow)
        } else {
            None
        }
    }

    /// The referee of the new bet: the creator under the honor system, the
    /// designated account otherwise.
    pub open spec fn spec_referee(self, referee_type: u8) -> Address {
        if referee_type_of_code(referee_type) == Some(RefereeType::HonorSystem) {
            self.creator
        } else {
            self.referee
        }
    }

    /// The new bet: Open, with no acceptor, winner or settlement times yet.
    pub open spec fn spec_new_bet(
        self,
        bet_amount: u64,
        description: [u8; 128],
        referee_type: u8,
        category: u8,
        odds_win: u64,
        odds_lose: u64,
        expires_at: i64,
        bet_available_to: u8,
        private_bet_recipient: Option<Address>,
        now: i64,
        bump: u8,
    ) -> Bet {
        Bet {
            referee: self.spec_referee(referee_type),
            creator: self.creator,
            acceptor: None,
            creator_username: self.profile.name,
            acceptor_username: spec_array_fill_for_copy_type(0u8),
            bet_amount,
            description,
            referee_type: referee_type_of_code(referee_type).unwrap(),
            category,
            odds_win,
            odds_lose,
            expires_at,
            status: BetStatus::Open,
            winner: None,
            created_at: now,
            accepted_at: None,
            resolved_at: None,
            bet_available_to,
            private_bet_recipient,
            version: RECORD_VERSION,
            bump,
        }
    }
}

/// Opens a bet: validates the referee kind, the odds and the expiration,
/// records the bet, puts the creator's stake into a new escrow and counts the
/// bet in the creator's profile. Returns the bet, its escrow and the deposit
/// that the caller carries out.
pub fn create_bet(
    ctx: &mut CreateBet,
    bet_amount: u64,
    description: [u8; 128],
    referee_type: u8,
    category: u8,
    odds_win: u64,
    odds_lose: u64,
    expires_at: i64,
    bet_available_to: u8,
    private_bet_recipient: Option<Address>,
    now: i64,
    bump: u8,
) -> (r: Result<(Bet, Treasury, Transfer), BetError>)
    ensures
        r is Ok <==> old(ctx).spec_rejection(referee_type, odds_win, odds_lose, expires_at, now) is None,
        r matches Err(e) ==> old(ctx).spec_rejection(
            referee_type,
            odds_win,
            odds_lose,
            expires_at,
            now,
        ) == Some(e) && *final(ctx) == *old(ctx),
        r matches Ok((bet, treasury, deposit)) ==> {
            &&& bet == old(ctx).spec_new_bet(
                bet_amount,
                description,
                referee_type,
                category,
                odds_win,
                odds_lose,
                expires_at,
                bet_available_to,
                private_bet_recipient,
                now,
                bump,
            )
            &&& treasury.balance == bet_amount
            &&& deposit == (Transfer::Deposit { from: old(ctx).creator, amount: bet_amount })
            &&& final(ctx).profile.total_my_bet_count == old(ctx).profile.total_my_bet_count + 1
            &&& *final(ctx) == (CreateBet {
                profile: Profile {
                    total_my_bet_count: final(ctx).profile.total_my_bet_count,
                    ..old(ctx).profile
                },
                ..*old(ctx)
            })
            &&& bet.wf()
            &&& bet.escrow_matches(treasury)
        },
{
    if ctx.profile.wallet != ctx.creator {
        return Err(BetError::InvalidProfileOwner);
    }
    let kind: RefereeType = match RefereeType::from_code(referee_type) {
        Some(RefereeType::HonorSystem) => RefereeType::HonorSystem,
        Some(RefereeType::ThirdParty) => RefereeType::ThirdParty,
        _ => return Err(BetError::InvalidRefereeType),
    };
    if odds_win == 0 || odds_lose == 0 {
        return Err(BetError::InvalidOdds);
    }
    if expires_at <= now {
        return Err(BetError::InvalidExpiration);
    }
    let count: u32 = match ctx.profile.total_my_bet_count.checked_add(1) {
        Some(c) => c,
        None => return Err(BetError::ArithmeticOverflow),
    };
    let referee: Address = match kind {
        RefereeType::HonorSystem => ctx.creator,
        _ => ctx.referee,
    };
    let bet = Bet {
        referee,
        creator: ctx.creator,
        acceptor: None,
        creator_username: ctx.profile.name,
        acceptor_username: array_fill_for_copy_types(0u8),
        bet_amount,
        description,
        referee_type: kind,
        category,
        odds_win,
        odds_lose,
        expires_at,
        status: BetStatus::Open,
        winner: None,
        created_at: now,
        accepted_at: None,
        resolved_at: None,
        bet_available_to,
        private_bet_recipient,
        version: RECORD_VERSION,
        bump,
    };
    let mut treasury: Treasury = Treasury::new();
    let deposited = treasury.deposit(bet_amount);
    assert(deposited is Ok);
    ctx.profile.total_my_bet_count = count;
    Ok((bet, treasury, Transfer::Deposit { from: ctx.creator, amount: bet_amount }))
}

} // verus!
