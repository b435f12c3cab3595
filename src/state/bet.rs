use vstd::prelude::*;

use crate::address::Address;
use crate::constants::{
    BET_STATUS_ACCEPTED, BET_STATUS_CANCELLED, BET_STATUS_OPEN, BET_STATUS_RESOLVED,
    REFEREE_TYPE_HONOR_SYSTEM, REFEREE_TYPE_ORACLE, REFEREE_TYPE_SMART_CONTRACT,
    REFEREE_TYPE_THIRD_PARTY,
};
use crate::state::treasury::{scaled_stake_spec, Treasury};

verus! {

/// Who may declare the outcome of a bet.
#[derive(Clone, Copy, Debug, PartialEq, Eq, Structural)]
pub enum RefereeType {
    HonorSystem,
    Oracle,
    ThirdParty,
    SmartContract,
}

/// Where a bet stands in its lifecycle.
#[derive(Clone, Copy, Debug, PartialEq, Eq, Structural)]
pub enum BetStatus {
    Open,
    Accepted,
    Cancelled,
    Resolved,
}

/// The subject a bet is about.
#[derive(Clone, Copy, Debug, PartialEq, Eq, Structural)]
pub enum BetCategory {
    Sports,
    PersonalGrowth,
    Politics,
    Crypto,
    WorldEvents,
    Entertainment,
    Technology,
    Business,
    Weather,
    Other,
}

/// Who may see and take a bet.
#[derive(Clone, Copy, Debug, PartialEq, Eq, Structural)]
pub enum BetAvailableTo {
    Public,
    FriendsOnly,
    Private,
}

pub open spec fn referee_type_of_code(code: u8) -> Option<RefereeType> {
    if code == REFEREE_TYPE_HONOR_SYSTEM {
        Some(RefereeType::HonorSystem)
    } else if code == REFEREE_TYPE_ORACLE {
        Some(RefereeType::Oracle)
    } else if code == REFEREE_TYPE_THIRD_PARTY {
        Some(RefereeType::ThirdParty)
    } else if code == REFEREE_TYPE_SMART_CONTRACT {
        Some(RefereeType::SmartContract)
    } else {
        None
    }
}

impl RefereeType {
    pub open spec fn spec_code(self) -> u8 {
        match self {
            RefereeType::HonorSystem => REFEREE_TYPE_HONOR_SYSTEM,
            RefereeType::Oracle => REFEREE_TYPE_ORACLE,
            RefereeType::ThirdParty => REFEREE_TYPE_THIRD_PARTY,
            RefereeType::SmartContract => REFEREE_TYPE_SMART_CONTRACT,
        }
    }

    /// The wire code of this kind.
    pub fn code(&self) -> (r: u8)
        ensures
            r == self.spec_code(),
            referee_type_of_code(r) == Some(*self),
    {
        match self {
            RefereeType::HonorSystem => REFEREE_TYPE_HONOR_SYSTEM,
            RefereeType::Oracle => REFEREE_TYPE_ORACLE,
            RefereeType::ThirdParty => REFEREE_TYPE_THIRD_PARTY,
            RefereeType::SmartContract => REFEREE_TYPE_SMART_CONTRACT,
        }
    }

    /// The kind with the given wire code, if there is one.
    pub fn from_code(code: u8) -> (r: Option<RefereeType>)
        ensures
            r == referee_type_of_code(code),
    {
        if code == REFEREE_TYPE_HONOR_SYSTEM {
            Some(RefereeType::HonorSystem)
        } else if code == REFEREE_TYPE_ORACLE {
            Some(RefereeType::Oracle)
        } else if code == REFEREE_TYPE_THIRD_PARTY {
            Some(RefereeType::ThirdParty)
        } else if code == REFEREE_TYPE_SMART_CONTRACT {
            Some(RefereeType::SmartContract)
        } else {
            None
        }
    }

    /// Only the honor system and a designated third party may referee a new bet.
    pub open spec fn spec_accepted_for_new_bets(self) -> bool {
        self is HonorSystem || self is ThirdParty
    }
}

pub open spec fn bet_status_of_code(code: u8) -> Option<BetStatus> {
    if code == BET_STATUS_OPEN {
        Some(BetStatus::Open)
    } else if code == BET_STATUS_ACCEPTED {
        Some(BetStatus::Accepted)
    } else if code == BET_STATUS_CANCELLED {
        Some(BetStatus::Cancelled)
    } else if code == BET_STATUS_RESOLVED {
        Some(BetStatus::Resolved)
    } else {
        None
    }
}

impl BetStatus {
    pub open spec fn spec_code(self) -> u8 {
        match self {
            BetStatus::Open => BET_STATUS_OPEN,
            BetStatus::Accepted => BET_STATUS_ACCEPTED,
            BetStatus::Cancelled => BET_STATUS_CANCELLED,
            BetStatus::Resolved => BET_STATUS_RESOLVED,
        }
    }

    /// The wire code of this status.
    pub fn code(&self) -> (r: u8)
        ensures
            r == self.spec_code(),
            bet_status_of_code(r) == Some(*self),
    {
        match self {
            BetStatus::Open => BET_STATUS_OPEN,
            BetStatus::Accepted => BET_STATUS_ACCEPTED,
            BetStatus::Cancelled => BET_STATUS_CANCELLED,
            BetStatus::Resolved => BET_STATUS_RESOLVED,
        }
    }

    /// The status with the given wire code, if there is one.
    pub fn from_code(code: u8) -> (r: Option<BetStatus>)
        ensures
            r == bet_status_of_code(code),
    {
        if code == BET_STATUS_OPEN {
            Some(BetStatus::Open)
        } else if code == BET_STATUS_ACCEPTED {
            Some(BetStatus::Accepted)
        } else if code == BET_STATUS_CANCELLED {
            Some(BetStatus::Cancelled)
        } else if code == BET_STATUS_RESOLVED {
            Some(BetStatus::Resolved)
        } else {
            None
        }
    }

    /// Cancelled and Resolved admit no further transition.
    pub open spec fn spec_is_terminal(self) -> bool {
        self is Cancelled || self is Resolved
    }

    pub fn is_terminal(&self) -> (r: bool)
        ensures
            r == self.spec_is_terminal(),
    {
        match self {
            BetStatus::Cancelled | BetStatus::Resolved => true,
            _ => false,
        }
    }

    /// The transitions of the lifecycle: Open to Accepted or Cancelled, and
    /// Accepted to Resolved.
    pub open spec fn spec_can_step_to(self, next: BetStatus) -> bool {
        ||| self is Open && next is Accepted
        ||| self is Open && next is Cancelled
        ||| self is Accepted && next is Resolved
    }
}

pub open spec fn bet_category_of_code(code: u8) -> Option<BetCategory> {
    if code == 0 {
        Some(BetCategory::Sports)
    } else if code == 1 {
        Some(BetCategory::PersonalGrowth)
    } else if code == 2 {
        Some(BetCategory::Politics)
    } else if code == 3 {
        Some(BetCategory::Crypto)
    } else if code == 4 {
        Some(BetCategory::WorldEvents)
    } else if code == 5 {
        Some(BetCategory::Entertainment)
    } else if code == 6 {
        Some(BetCategory::Technology)
    } else if code == 7 {
        Some(BetCategory::Business)
    } else if code == 8 {
        Some(BetCategory::Weather)
    } else if code == 9 {
        Some(BetCategory::Other)
    } else {
        None
    }
}

impl BetCategory {
    /// The category with the given wire code, if there is one.
    pub fn from_code(code: u8) -> (r: Option<BetCategory>)
        ensures
            r == bet_category_of_code(code),
    {
        match code {
            0 => Some(BetCategory::Sports),
            1 => Some(BetCategory::PersonalGrowth),
            2 => Some(BetCategory::Politics),
            3 => Some(BetCategory::Crypto),
            4 => Some(BetCategory::WorldEvents),
            5 => Some(BetCategory::Entertainment),
            6 => Some(BetCategory::Technology),
            7 => Some(BetCategory::Business),
            8 => Some(BetCategory::Weather),
            9 => Some(BetCategory::Other),
            _ => None,
        }
    }

    /// The wire code of this category.
    pub fn code(&self) -> (r: u8)
        ensures
            bet_category_of_code(r) == Some(*self),
    {
        match self {
            BetCategory::Sports => 0,
            BetCategory::PersonalGrowth => 1,
            BetCategory::Politics => 2,
            BetCategory::Crypto => 3,
            BetCategory::WorldEvents => 4,
            BetCategory::Entertainment => 5,
            BetCategory::Technology => 6,
            BetCategory::Business => 7,
            BetCategory::Weather => 8,
            BetCategory::Other => 9,
        }
    }
}

pub open spec fn bet_available_to_of_code(code: u8) -> Option<BetAvailableTo> {
    if code == 0 {
        Some(BetAvailableTo::Public)
    } else if code == 1 {
        Some(BetAvailableTo::FriendsOnly)
    } else if code == 2 {
        Some(BetAvailableTo::Private)
    } else {
        None
    }
}

impl BetAvailableTo {
    /// The visibility with the given wire code, if there is one.
    pub fn from_code(code: u8) -> (r: Option<BetAvailableTo>)
        ensures
            r == bet_available_to_of_code(code),
    {
        match code {
            0 => Some(BetAvailableTo::Public),
            1 => Some(BetAvailableTo::FriendsOnly),
            2 => Some(BetAvailableTo::Private),
            _ => None,
        }
    }

    /// The wire code of this visibility.
    pub fn code(&self) -> (r: u8)
        ensures
            bet_available_to_of_code(r) == Some(*self),
    {
        match self {
            BetAvailableTo::Public => 0,
            BetAvailableTo::FriendsOnly => 1,
            BetAvailableTo::Private => 2,
        }
    }
}

/// One wager between a creator and, once accepted, an acceptor.
#[derive(Clone, Copy)]
pub struct Bet {
    /// The only identity that may resolve the bet.
    pub referee: Address,
    pub creator: Address,
    pub acceptor: Option<Address>,
    pub creator_username: [u8; 32],
    pub acceptor_username: [u8; 32],
    /// The creator's stake.
    pub bet_amount: u64,
    /// Free text, opaque to the ledger, in a fixed 128-byte buffer.
    pub description: [u8; 128],
    pub referee_type: RefereeType,
    /// Wire code of a `BetCategory`; kept as given.
    pub category: u8,
    pub odds_win: u64,
    pub odds_lose: u64,
    pub expires_at: i64,
    pub status: BetStatus,
    pub winner: Option<Address>,
    pub created_at: i64,
    pub accepted_at: Option<i64>,
    pub resolved_at: Option<i64>,
    /// Wire code of a `BetAvailableTo`; kept as given.
    pub bet_available_to: u8,
    pub private_bet_recipient: Option<Address>,
    pub version: u8,
    pub bump: u8,
}

impl Bet {
    /// What the acceptor stakes against the creator: the creator's stake
    /// scaled by the odds, rounded down.
    pub open spec fn spec_acceptor_stake(self) -> int {
        scaled_stake_spec(self.bet_amount, self.odds_win, self.odds_lose)
    }

    /// What the escrow of this bet holds at each point of its lifecycle.
    pub open spec fn spec_locked(self) -> int {
        match self.status {
            BetStatus::Open => self.bet_amount as int,
            BetStatus::Accepted => self.bet_amount + self.spec_acceptor_stake(),
            BetStatus::Cancelled | BetStatus::Resolved => 0,
        }
    }

    /// The invariant of a bet record.
    pub open spec fn wf(self) -> bool {
        &&& self.odds_win > 0
        &&& self.odds_lose > 0
        &&& self.referee_type.spec_accepted_for_new_bets()
        &&& self.referee_type is HonorSystem ==> self.referee == self.creator
        &&& (self.acceptor is Some <==> (self.status is Accepted || self.status is Resolved))
        &&& (self.accepted_at is Some <==> self.acceptor is Some)
        &&& (self.winner is Some <==> self.status is Resolved)
        &&& (self.resolved_at is Some <==> self.status is Resolved)
        &&& (self.acceptor matches Some(a) ==> a != self.creator)
        &&& (self.winner matches Some(w) ==> (w == self.creator || self.acceptor == Some(w)))
    }

    /// A bet and its escrow agree: the escrow holds exactly what the bet's
    /// status says it holds.
    pub open spec fn escrow_matches(self, treasury: Treasury) -> bool {
        treasury.balance == self.spec_locked()
    }
}

} // verus!
