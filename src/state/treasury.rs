use vstd::prelude::*;

use crate::address::Address;
use crate::error::BetError;

verus! {

/// The escrow of one bet: what its participants have staked and not yet been paid.
#[derive(Clone, Copy, Debug, PartialEq, Eq, Structural)]
pub struct Treasury {
    pub balance: u64,
}

/// A movement of funds between a participant's own account and an escrow,
/// which the caller of an operation carries out.
#[derive(Clone, Copy, Debug)]
pub enum Transfer {
    /// `amount` leaves `from` and enters the escrow.
    Deposit { from: Address, amount: u64 },
    /// `amount` leaves the escrow and enters `to`.
    Payout { to: Address, amount: u64 },
}

impl Transfer {
    /// What the transfer adds to the own account of `who` (negative where it
    /// takes from it).
    pub open spec fn spec_gain(self, who: Address) -> int {
        match self {
            Transfer::Deposit { from, amount } => if from == who {
                -amount
            } else {
                0
            },
            Transfer::Payout { to, amount } => if to == who {
                amount as int
            } else {
                0
            },
        }
    }
}

/// `stake * odds_win / odds_lose`, rounded down, over the integers.
pub open spec fn scaled_stake_spec(stake: u64, odds_win: u64, odds_lose: u64) -> int {
    (stake as int * odds_win as int) / (odds_lose as int)
}

/// The stake scaled by the odds, `floor(stake * odds_win / odds_lose)`. The
/// product is taken in 128 bits, so only a quotient beyond `u64` (or a zero
/// divisor) is refused.
pub fn scaled_stake(stake: u64, odds_win: u64, odds_lose: u64) -> (r: Result<u64, BetError>)
    ensures
        r is Ok <==> (odds_lose > 0 && scaled_stake_spec(stake, odds_win, odds_lose) <= u64::MAX),
        r matches Ok(v) ==> v == scaled_stake_spec(stake, odds_win, odds_lose),
        r matches Err(e) ==> e == BetError::ArithmeticOverflow,
{
    let wide_stake: u128 = stake as u128;
    let wide_win: u128 = odds_win as u128;
    assert(wide_stake * wide_win <= u64::MAX * u64::MAX) by (nonlinear_arith)
        requires
            wide_stake <= u64::MAX,
            wide_win <= u64::MAX,
    ;
    let product: u128 = match wide_stake.checked_mul(wide_win) {
        Some(p) => p,
        None => return Err(BetError::ArithmeticOverflow),
    };
    let quotient: u128 = match product.checked_div(odds_lose as u128) {
        Some(q) => q,
        None => return Err(BetError::ArithmeticOverflow),
    };
    if quotient > u64::MAX as u128 {
        Err(BetError::ArithmeticOverflow)
    } else {
        Ok(quotient as u64)
    }
}

impl Treasury {
    /// A new, empty escrow.
    pub fn new() -> (r: Treasury)
        ensures
            r.balance == 0,
    {
        Treasury { balance: 0 }
    }

    /// Takes `amount` into the escrow; refused only where the balance would
    /// not fit in `u64`.
    pub fn deposit(&mut self, amount: u64) -> (r: Result<(), BetError>)
        ensures
            r is Ok <==> old(self).balance + amount <= u64::MAX,
            r is Ok ==> final(self).balance == old(self).balance + amount,
            r matches Err(e) ==> e == BetError::ArithmeticOverflow && *final(self) == *old(self),
    {
        match self.balance.checked_add(amount) {
            Some(b) => {
                self.balance = b;
                Ok(())
            },
            None => Err(BetError::ArithmeticOverflow),
        }
    }

    /// Pays `amount` out of the escrow; refused where it exceeds the balance.
    pub fn payout(&mut self, amount: u64) -> (r: Result<(), BetError>)
        ensures
            r is Ok <==> amount <= old(self).balance,
            r is Ok ==> final(self).balance == old(self).balance - amount,
            r matches Err(e) ==> e == BetError::ArithmeticOverflow && *final(self) == *old(self),
    {
        match self.balance.checked_sub(amount) {
            Some(b) => {
                self.balance = b;
                Ok(())
            },
            None => Err(BetError::ArithmeticOverflow),
        }
    }

    /// Pays out the whole balance and returns it.
    pub fn drain(&mut self) -> (r: u64)
        ensures
            r == old(self).balance,
            final(self).balance == 0,
    {
        let amount: u64 = self.balance;
        let paid = self.payout(amount);
        assert(paid is Ok);
        amount
    }
}

} // verus!
