use vstd::prelude::*;
use crate::custody::Movements;
use crate::errors::ErrorCode;
use crate::instructions::applied;
use crate::instructions::Outcome;
use crate::states::contract_state::ContractState;
use crate::states::user_state::UserState;

verus! {

/// What depositing `amount` of collateral does: it is added to what the
/// position has deposited and to the contract's total value. `Overflow`
/// where one of the sums is no `u64` value.
pub open spec fn deposit_collateral_outcome(contract: ContractState, user: UserState, amount: u64)
    -> Result<Outcome, ErrorCode> {
    if user.usdc_deposited as int + amount as int > u64::MAX as int
        || contract.current_tvl_usdc as int + amount as int > u64::MAX as int {
        Err(ErrorCode::Overflow)
    } else {
        Ok(
            Outcome {
                contract: ContractState {
                    current_tvl_usdc: (contract.current_tvl_usdc + amount) as u64,
                    ..contract
                },
                user: UserState {
                    usdc_deposited: (user.usdc_deposited + amount) as u64,
                    ..user
                },
                movements: Movements { deposit: amount, ..Movements::none() },
            },
        )
    }
}

/// Deposits `amount` of collateral into the position's free account.
pub fn handle(contract: &mut ContractState, user: &mut UserState, amount: u64) -> (r: Result<
    Movements,
    ErrorCode,
>)
    ensures
        applied(
            *old(contract),
            *old(user),
            *final(contract),
            *final(user),
            r,
            deposit_collateral_outcome(*old(contract), *old(user), amount),
        ),
{
    let deposited = match user.usdc_deposited.checked_add(amount) {
        Some(v) => v,
        None => { return Err(ErrorCode::Overflow); },
    };
    let tvl = match contract.current_tvl_usdc.checked_add(amount) {
        Some(v) => v,
        None => { return Err(ErrorCode::Overflow); },
    };
    user.usdc_deposited = deposited;
    contract.current_tvl_usdc = tvl;
    let mut movements = Movements::none();
    movements.deposit = amount;
    Ok(movements)
}

} // verus!
