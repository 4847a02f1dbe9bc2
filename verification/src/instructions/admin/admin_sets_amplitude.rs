use vstd::prelude::*;
use crate::states::contract_state::ContractState;

verus! {

/// Replaces the contract's amplitude and nothing else.
pub fn handle(contract: &mut ContractState, input_limiting_amplitude: u64)
    ensures
        *final(contract) == (ContractState {
            limiting_amplitude: input_limiting_amplitude,
            ..*old(contract)
        }),
{
    contract.limiting_amplitude = input_limiting_amplitude;
}

} // verus!
