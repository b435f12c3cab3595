use vstd::prelude::*;

use crate::address::Address;
use crate::state::profile::Profile;

verus! {

/// The identity that a new profile is for.
#[derive(Clone, Copy)]
pub struct CreateProfile {
    pub wallet: Address,
}

/// A fresh profile for `ctx.wallet`, with every counter at zero.
pub fn create_profile(ctx: &CreateProfile, name: [u8; 32], now: i64, bump: u8) -> (r: Profile)
    ensures
        r == Profile::spec_new(ctx.wallet, name, now, bump),
{
    Profile::new(ctx.wallet, name, now, bump)
}

} // verus!
