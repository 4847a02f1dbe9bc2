use vstd::prelude::*;
use crate::types::Address;

verus! {

/// The platform-wide record.
#[derive(Clone, Copy, Debug, Default, PartialEq, Eq)]
pub struct GlobalState {
    pub bump: u8,
    pub authority: Address,
    /// Whether the platform is paused.
    pub paused: bool,
    pub total_tvl_usdc: u64,
}

} // verus!
