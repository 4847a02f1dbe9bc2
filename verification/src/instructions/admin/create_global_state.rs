use vstd::prelude::*;
use crate::states::global_state::GlobalState;
use crate::types::Address;

verus! {

/// Sets up the platform-wide record: it belongs to `authority`, is not
/// paused and counts no value.
pub fn handle(global_state: &mut GlobalState, bump: u8, authority: Address)
    ensures
        *final(global_state) == (GlobalState { bump, authority, paused: false, total_tvl_usdc: 0 }),
{
    global_state.bump = bump;
    global_state.authority = authority;
    global_state.paused = false;
    global_state.total_tvl_usdc = 0;
}

} // verus!
