use vstd::prelude::*;
use crate::states::user_state::UserState;
use crate::types::Address;

verus! {

/// Sets up a participant's ledger for one contract: it belongs to
/// `authority`, refers to `contract_account`, is neither halted nor settled,
/// and holds no deposit, no withdrawal and no free collateral. The other
/// fields are left as they were.
pub fn handle(user: &mut UserState, bump: u8, authority: Address, contract_account: Address)
    ensures
        *final(user) == (UserState {
            bump,
            usdc_deposited: 0,
            usdc_withdrawn: 0,
            ishalted: false,
            issettled: false,
            authority,
            contract_account,
            usdc_free: 0,
            ..*old(user)
        }),
{
    user.bump = bump;
    user.usdc_deposited = 0;
    user.usdc_withdrawn = 0;
    user.ishalted = false;
    user.issettled = false;
    user.authority = authority;
    user.contract_account = contract_account;
    user.usdc_free = 0;
}

} // verus!
