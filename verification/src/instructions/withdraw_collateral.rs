use vstd::prelude::*;
use crate::custody::Movements;
use crate::errors::ErrorCode;
use crate::instructions::applied;
use crate::instructions::Outcome;
use crate::states::contract_state::ContractState;
use crate::states::user_state::UserState;

verus! {

/// What withdrawing `amount` of collateral does: it is taken off what the
/// position has deposited and off the contract's total value. `Overflow`
/// where either holds less. Whether the free account holds the amount is
/// for the transfer to find.
pub open spec fn withdraw_collateral_outcome(contract: ContractState, user: UserState, amount: u64)
    -> Result<Outcome, ErrorCode> {
    if amount > user.usdc_deposited || amount > contract.current_tvl_usdc {
        Err(ErrorCode::Overflow)
    } else {
        Ok(
            Outcome {
                contract: ContractState {
                    current_tvl_usdc: (contract.current_tvl_usdc - amount) as u64,
                    ..contract
                },
                user: UserState {
                    usdc_deposited: (user.usdc_deposited - amount) as u64,
                    ..user
                },
                movements: Movements { withdrawal: amount, ..Movements::none() },
            },
        )
    }
}

/// Withdraws `amount` of collateral from the position's free account.
pub fn handle(contract: &mut ContractState, user: &mut UserState, amount: u64) -> (r: Result<
    Movements,
    ErrorCode,
>)
    ensures
        applied(
            *old(contract),
            *old(user),
            *final(contract),
            *final(user),
            r,
            withdraw_collateral_outcome(*old(contract), *old(user), amount),
        ),
{
    let deposited = match user.usdc_deposited.checked_sub(amount) {
        Some(v) => v,
        None => { return Err(ErrorCode::Overflow); },
    };
    let tvl = match contract.current_tvl_usdc.checked_sub(amount) {
        Some(v) => v,
        None => { return Err(ErrorCode::Overflow); },
    };
    user.usdc_deposited = deposited;
    contract.current_tvl_usdc = tvl;
    let mut movements = Movements::none();
    movements.withdrawal = amount;
    Ok(movements)
}

} // verus!
