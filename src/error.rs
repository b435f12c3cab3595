use vstd::prelude::*;

verus! {

/// Every reason for which an operation of the ledger is refused. A refused
/// operation leaves every record it was handed unchanged.
#[derive(Clone, Copy, Debug, PartialEq, Eq, Structural)]
pub enum BetError {
    InvalidRefereeType,
    InvalidOdds,
    InvalidExpiration,
    Unauthorized,
    InvalidBetStatus,
    BetExpired,
    BetAlreadyAccepted,
    CannotAcceptOwnBet,
    InvalidBetCreator,
    BetNotAccepted,
    InvalidProfileOwner,
    ArithmeticOverflow,
}

} // verus!
