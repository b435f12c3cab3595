use vstd::prelude::*;

verus! {

// Wire codes of the bet status.
pub const BET_STATUS_OPEN: u8 = 0;
pub const BET_STATUS_ACCEPTED: u8 = 1;
pub const BET_STATUS_CANCELLED: u8 = 2;
pub const BET_STATUS_RESOLVED: u8 = 3;

// Wire codes of the referee kind.
pub const REFEREE_TYPE_HONOR_SYSTEM: u8 = 0;
pub const REFEREE_TYPE_ORACLE: u8 = 1;
pub const REFEREE_TYPE_THIRD_PARTY: u8 = 2;
pub const REFEREE_TYPE_SMART_CONTRACT: u8 = 3;

// Per-side state of a friend relation.
pub const FRIEND_STATUS_NONE: u8 = 0;
pub const FRIEND_STATUS_REQUESTED: u8 = 1;
pub const FRIEND_STATUS_ACCEPTED: u8 = 2;

/// Layout version written into every new record.
pub const RECORD_VERSION: u8 = 1;

} // verus!
