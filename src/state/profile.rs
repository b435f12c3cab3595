use vstd::prelude::*;

use crate::address::Address;
use crate::constants::RECORD_VERSION;
use crate::error::BetError;

verus! {

/// The lifetime statistics of one participant. Counters only grow; the profit
/// accumulators are signed.
#[derive(Clone, Copy)]
pub struct Profile {
    pub wallet: Address,
    pub name: [u8; 32],
    /// Bets created.
    pub total_my_bet_count: u32,
    pub cancelled_bet_count: u32,
    /// Bets accepted.
    pub total_bets_accepted_count: u32,
    pub total_my_bet_wins: u32,
    pub total_my_bet_losses: u32,
    pub total_accepted_bet_wins: u32,
    pub total_accepted_bet_losses: u32,
    /// Profit from bets created; may be negative.
    pub total_my_bet_profit: i64,
    /// Profit from bets accepted; may be negative.
    pub total_accepted_bet_profit: i64,
    pub total_my_bet_volume: u64,
    pub total_accepted_bet_volume: u64,
    pub created_at: i64,
    pub version: u8,
    pub bump: u8,
}

impl Profile {
    /// A profile with every counter at zero.
    pub open spec fn spec_new(wallet: Address, name: [u8; 32], now: i64, bump: u8) -> Profile {
        Profile {
            wallet,
            name,
            total_my_bet_count: 0,
            cancelled_bet_count: 0,
            total_bets_accepted_count: 0,
            total_my_bet_wins: 0,
            total_my_bet_losses: 0,
            total_accepted_bet_wins: 0,
            total_accepted_bet_losses: 0,
            total_my_bet_profit: 0,
            total_accepted_bet_profit: 0,
            total_my_bet_volume: 0,
            total_accepted_bet_volume: 0,
            created_at: now,
            version: RECORD_VERSION,
            bump,
        }
    }

    pub fn new(wallet: Address, name: [u8; 32], now: i64, bump: u8) -> (r: Profile)
        ensures
            r == Profile::spec_new(wallet, name, now, bump),
    {
        Profile {
            wallet,
            name,
            total_my_bet_count: 0,
            cancelled_bet_count: 0,
            total_bets_accepted_count: 0,
            total_my_bet_wins: 0,
            total_my_bet_losses: 0,
            total_accepted_bet_wins: 0,
            total_accepted_bet_losses: 0,
            total_my_bet_profit: 0,
            total_accepted_bet_profit: 0,
            total_my_bet_volume: 0,
            total_accepted_bet_volume: 0,
            created_at: now,
            version: RECORD_VERSION,
            bump,
        }
    }
    /// Whether an outcome can be recorded without a counter or an accumulator
    /// leaving its type.
    pub open spec fn spec_can_record_outcome(self, as_creator: bool, won: bool, delta: int) -> bool {
        let profit = if as_creator {
            self.total_my_bet_profit
        } else {
            self.total_accepted_bet_profit
        };
        let count = if as_creator {
            if won {
                self.total_my_bet_wins
            } else {
                self.total_my_bet_losses
            }
        } else {
            if won {
                self.total_accepted_bet_wins
            } else {
                self.total_accepted_bet_losses
            }
        };
        &&& count + 1 <= u32::MAX
        &&& i64::MIN <= profit + delta <= i64::MAX
    }

    /// The profile after one resolved bet: as creator or as acceptor, the
    /// matching win or loss counter grows by one and the matching profit
    /// accumulator moves by `delta`.
    pub open spec fn spec_record_outcome(self, as_creator: bool, won: bool, delta: int) -> Profile {
        if as_creator {
            if won {
                Profile {
                    total_my_bet_wins: (self.total_my_bet_wins + 1) as u32,
                    total_my_bet_profit: (self.total_my_bet_profit + delta) as i64,
                    ..self
                }
            } else {
                Profile {
                    total_my_bet_losses: (self.total_my_bet_losses + 1) as u32,
                    total_my_bet_profit: (self.total_my_bet_profit + delta) as i64,
                    ..self
                }
            }
        } else {
            if won {
                Profile {
                    total_accepted_bet_wins: (self.total_accepted_bet_wins + 1) as u32,
                    total_accepted_bet_profit: (self.total_accepted_bet_profit + delta) as i64,
                    ..self
                }
            } else {
                Profile {
                    total_accepted_bet_losses: (self.total_accepted_bet_losses + 1) as u32,
                    total_accepted_bet_profit: (self.total_accepted_bet_profit + delta) as i64,
                    ..self
                }
            }
        }
    }

    /// The profile with one more resolved bet recorded (see
    /// `spec_record_outcome`); refused with `ArithmeticOverflow` where a
    /// counter or an accumulator would leave its type.
    pub fn record_outcome(&self, as_creator: bool, won: bool, delta: i64) -> (r: Result<Profile, BetError>)
        ensures
            r is Ok <==> self.spec_can_record_outcome(as_creator, won, delta as int),
            r matches Ok(p) ==> p == self.spec_record_outcome(as_creator, won, delta as int),
            r matches Err(e) ==> e == BetError::ArithmeticOverflow,
    {
        let mut next: Profile = *self;
        let profit: i64 = if as_creator {
            self.total_my_bet_profit
        } else {
            self.total_accepted_bet_profit
        };
        let new_profit: i64 = match profit.checked_add(delta) {
            Some(v) => v,
            None => return Err(BetError::ArithmeticOverflow),
        };
        if as_creator {
            next.total_my_bet_profit = new_profit;
            if won {
                next.total_my_bet_wins = match self.total_my_bet_wins.checked_add(1) {
                    Some(v) => v,
                    None => return Err(BetError::ArithmeticOverflow),
                };
            } else {
                next.total_my_bet_losses = match self.total_my_bet_losses.checked_add(1) {
                    Some(v) => v,
                    None => return Err(BetError::ArithmeticOverflow),
                };
            }
        } else {
            next.total_accepted_bet_profit = new_profit;
            if won {
                next.total_accepted_bet_wins = match self.total_accepted_bet_wins.checked_add(1) {
                    Some(v) => v,
                    None => return Err(BetError::ArithmeticOverflow),
                };
            } else {
                next.total_accepted_bet_losses = match self.total_accepted_bet_losses.checked_add(
                    1,
                ) {
                    Some(v) => v,
                    None => return Err(BetError::ArithmeticOverflow),
                };
            }
        }
        Ok(next)
    }
}

} // verus!
