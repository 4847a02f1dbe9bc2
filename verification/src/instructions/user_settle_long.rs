use vstd::prelude::*;
use crate::custody::Movements;
use crate::errors::ErrorCode;
use crate::guard::check_platform;
use crate::guard::platform_check;
use crate::instructions::applied;
use crate::instructions::Outcome;
use crate::payout::gains;
use crate::payout::position_gains;
use crate::payout::scaled_payout;
use crate::states::contract_state::ContractState;
use crate::states::user_state::UserState;

verus! {

/// What the long units of a position are paid at the recorded ending price.
pub open spec fn long_side_gains(contract: ContractState, user: UserState) -> int {
    gains(user.lcontract_bought_as_user, contract.long_scaled(), contract.oracle_price_multiplier)
}

/// Every number of the redemption is a value of its type.
pub open spec fn long_side_defined(contract: ContractState, user: UserState) -> bool {
    &&& contract.band_defined()
    &&& contract.oracle_price_multiplier > 0
    &&& user.lcontract_bought_as_user as int * contract.long_scaled() <= u64::MAX as int
    &&& user.lcontract_bought_as_user <= contract.global_current_issued_lcontract
    &&& long_side_gains(contract, user) <= contract.global_current_locked_usdc as int
    &&& user.usdc_free as int + long_side_gains(contract, user) <= u64::MAX as int
}

/// The redemption of a position's long units, where it is defined.
pub open spec fn long_side_redeemed(contract: ContractState, user: UserState) -> Outcome {
    let paid = long_side_gains(contract, user);
    Outcome {
        contract: ContractState {
            global_current_issued_lcontract: (contract.global_current_issued_lcontract
                - user.lcontract_bought_as_user) as u64,
            global_current_locked_usdc: (contract.global_current_locked_usdc as int - paid) as u64,
            ..contract
        },
        user: UserState {
            issettled: true,
            contract_position_net: 0,
            lcontract_bought_as_user: 0,
            usdc_free: (user.usdc_free as int + paid) as u64,
            ..user
        },
        movements: Movements {
            escrow_to_free: paid as u64,
            burn_long: user.lcontract_bought_as_user,
            ..Movements::none()
        },
    }
}

/// What redeeming the long units of a position does.
///
/// Outside the settling phase it fails with `NotSettling`. A position with
/// no long unit is left as it is. Otherwise the position is paid its gains
/// at the recorded ending price out of the shared escrow, its long units are
/// burnt, and the platform's issued units and locked collateral go down by
/// the units redeemed and by what was paid. The platform must remain healthy
/// at the long side's payout, and the position's custody account must hold
/// exactly the units that the ledger records, `ErrorAccounting` otherwise.
pub open spec fn user_settle_long_outcome(
    contract: ContractState,
    user: UserState,
    vault_long_units: u64,
) -> Result<Outcome, ErrorCode> {
    if !contract.is_settling {
        Err(ErrorCode::NotSettling)
    } else if user.lcontract_bought_as_user == 0 {
        Ok(Outcome { contract, user, movements: Movements::none() })
    } else if !long_side_defined(contract, user) {
        Err(ErrorCode::Overflow)
    } else {
        let outcome = long_side_redeemed(contract, user);
        match platform_check(
            outcome.contract.global_current_locked_usdc,
            outcome.contract.global_current_issued_lcontract,
            contract.long_scaled() as u64,
            contract.oracle_price_multiplier,
        ) {
            Err(e) => Err(e),
            Ok(_) => if vault_long_units != user.lcontract_bought_as_user {
                Err(ErrorCode::ErrorAccounting)
            } else {
                Ok(outcome)
            },
        }
    }
}

/// Redeems the long units of a position. `vault_long_units` is what the
/// position's custody account holds in long units when the call is made.
pub fn handle(contract: &mut ContractState, user: &mut UserState, vault_long_units: u64) -> (r:
    Result<Movements, ErrorCode>)
    ensures
        applied(
            *old(contract),
            *old(user),
            *final(contract),
            *final(user),
            r,
            user_settle_long_outcome(*old(contract), *old(user), vault_long_units),
        ),
{
    if !contract.is_settling {
        return Err(ErrorCode::NotSettling);
    }
    let bought: u64 = user.lcontract_bought_as_user;
    if bought == 0 {
        return Ok(Movements::none());
    }
    let scale: u64 = contract.oracle_price_multiplier;
    let per_unit = match scaled_payout(
        contract.starting_price,
        contract.ending_price,
        contract.limiting_amplitude,
        scale,
    ) {
        Ok(p) => p,
        Err(e) => { return Err(e); },
    };
    let paid = match position_gains(bought, per_unit.long, scale) {
        Ok(v) => v,
        Err(e) => { return Err(e); },
    };
    let issued_left = match contract.global_current_issued_lcontract.checked_sub(bought) {
        Some(v) => v,
        None => { return Err(ErrorCode::Overflow); },
    };
    let locked_left = match contract.global_current_locked_usdc.checked_sub(paid) {
        Some(v) => v,
        None => { return Err(ErrorCode::Overflow); },
    };
    let free = match user.usdc_free.checked_add(paid) {
        Some(v) => v,
        None => { return Err(ErrorCode::Overflow); },
    };
    match check_platform(locked_left, issued_left, per_unit.long, scale) {
        Err(e) => { return Err(e); },
        Ok(_) => {},
    }
    if vault_long_units != bought {
        return Err(ErrorCode::ErrorAccounting);
    }
    contract.global_current_issued_lcontract = issued_left;
    contract.global_current_locked_usdc = locked_left;
    user.issettled = true;
    user.contract_position_net = 0;
    user.lcontract_bought_as_user = 0;
    user.usdc_free = free;
    let mut movements = Movements::none();
    movements.escrow_to_free = paid;
    movements.burn_long = bought;
    Ok(movements)
}

} // verus!
