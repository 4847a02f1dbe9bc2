use vstd::prelude::*;
use crate::custody::Movements;
use crate::errors::ErrorCode;
use crate::guard::check_platform;
use crate::guard::platform_check;
use crate::instructions::applied_to_contract;
use crate::instructions::ContractOutcome;
use crate::payout::gains;
use crate::payout::position_gains;
use crate::payout::scaled_payout;
use crate::states::contract_state::ContractState;

verus! {

/// What `amount` long units are paid at the recorded ending price.
pub open spec fn redeemed_gains(contract: ContractState, amount: u64) -> int {
    gains(amount, contract.long_scaled(), contract.oracle_price_multiplier)
}

/// Every number of the redemption is a value of its type.
pub open spec fn redemption_defined(contract: ContractState, amount: u64) -> bool {
    &&& contract.band_defined()
    &&& contract.oracle_price_multiplier > 0
    &&& amount as int * contract.long_scaled() <= u64::MAX as int
    &&& amount <= contract.global_current_issued_lcontract
    &&& redeemed_gains(contract, amount) <= contract.global_current_locked_usdc as int
}

/// What redeeming long units held outside any position does.
///
/// Outside the settling phase it fails with `NotSettling`. Otherwise the
/// holder is paid for `amount` units at the recorded ending price out of the
/// shared escrow, the units are burnt, and the platform's issued units and
/// locked collateral go down by `amount` and by what was paid. More units
/// than the platform has issued cannot be redeemed: that is an `Overflow`.
/// The platform must remain healthy at the long side's payout.
pub open spec fn mm_settle_long_outcome(contract: ContractState, amount: u64) -> Result<
    ContractOutcome,
    ErrorCode,
> {
    if !contract.is_settling {
        Err(ErrorCode::NotSettling)
    } else if !redemption_defined(contract, amount) {
        Err(ErrorCode::Overflow)
    } else {
        let paid = redeemed_gains(contract, amount);
        let issued_left = (contract.global_current_issued_lcontract - amount) as u64;
        let locked_left = (contract.global_current_locked_usdc as int - paid) as u64;
        match platform_check(
            locked_left,
            issued_left,
            contract.long_scaled() as u64,
            contract.oracle_price_multiplier,
        ) {
            Err(e) => Err(e),
            Ok(_) => Ok(
                ContractOutcome {
                    contract: ContractState {
                        global_current_issued_lcontract: issued_left,
                        global_current_locked_usdc: locked_left,
                        ..contract
                    },
                    movements: Movements {
                        escrow_to_free: paid as u64,
                        burn_long: amount,
                        ..Movements::none()
                    },
                },
            ),
        }
    }
}

/// Redeems `amount_to_redeem` long units that a market maker holds.
pub fn handle(contract: &mut ContractState, amount_to_redeem: u64) -> (r: Result<
    Movements,
    ErrorCode,
>)
    ensures
        applied_to_contract(
            *old(contract),
            *final(contract),
            r,
            mm_settle_long_outcome(*old(contract), amount_to_redeem),
        ),
{
    if !contract.is_settling {
        return Err(ErrorCode::NotSettling);
    }
    let scale: u64 = contract.oracle_price_multiplier;
    let per_unit = match scaled_payout(
        contract.starting_price,
        contract.ending_price,
        contract.limiting_amplitude,
        scale,
    ) {
        Ok(p) => p,
        Err(e) => { return Err(e); },
    };
    let paid = match position_gains(amount_to_redeem, per_unit.long, scale) {
        Ok(v) => v,
        Err(e) => { return Err(e); },
    };
    let issued_left = match contract.global_current_issued_lcontract.checked_sub(
        amount_to_redeem,
    ) {
        Some(v) => v,
        None => { return Err(ErrorCode::Overflow); },
    };
    let locked_left = match contract.global_current_locked_usdc.checked_sub(paid) {
        Some(v) => v,
        None => { return Err(ErrorCode::Overflow); },
    };
    match check_platform(locked_left, issued_left, per_unit.long, scale) {
        Err(e) => { return Err(e); },
        Ok(_) => {},
    }
    contract.global_current_issued_lcontract = issued_left;
    contract.global_current_locked_usdc = locked_left;
    let mut movements = Movements::none();
    movements.escrow_to_free = paid;
    movements.burn_long = amount_to_redeem;
    Ok(movements)
}

} // verus!
