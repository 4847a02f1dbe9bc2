use vstd::prelude::*;
use crate::errors::ErrorCode;
use crate::instructions::trigger_settle_mode::settling_at;
use crate::states::contract_state::ContractState;

verus! {

/// Triggers settlement at a price that the administrator names, whatever
/// the time. A contract that is settling already keeps its ending price and
/// gives `AlreadySettling`.
pub fn handle(contract: &mut ContractState, test_settlement_price: u64) -> (r: Result<
    (),
    ErrorCode,
>)
    ensures
        old(contract).is_settling ==> r == Err::<(), ErrorCode>(ErrorCode::AlreadySettling)
            && *final(contract) == *old(contract),
        !old(contract).is_settling ==> r == Ok::<(), ErrorCode>(()) && *final(contract)
            == settling_at(*old(contract), test_settlement_price),
{
    if contract.is_settling {
        return Err(ErrorCode::AlreadySettling);
    }
    contract.ending_price = test_settlement_price;
    contract.is_settling = true;
    contract.is_halted_deposit = true;
    contract.is_halted_trading = true;
    Ok(())
}

} // verus!
