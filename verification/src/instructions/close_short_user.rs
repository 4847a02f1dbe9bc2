use vstd::prelude::*;
use crate::custody::rise;
use crate::custody::Movements;
use crate::custody::SwapObservation;
use crate::errors::ErrorCode;
use crate::guard::check_solvency;
use crate::guard::trading_check;
use crate::instructions::applied;
use crate::instructions::short_user::collateral_for;
use crate::instructions::Outcome;
use crate::states::contract_state::ContractState;
use crate::states::user_state::net_after;
use crate::states::user_state::net_shift;
use crate::states::user_state::UserState;

verus! {

/// Every number of the closing is a value of its type: the units bought
/// back and their collateral are there to be taken off the position and the
/// platform, and the purchase cost no more than the collateral it releases.
pub open spec fn short_close_defined(
    contract: ContractState,
    user: UserState,
    swap: SwapObservation,
) -> bool {
    let bought_back = swap.units_gained();
    let released = collateral_for(contract, bought_back as u64);
    &&& released <= u64::MAX as int
    &&& swap.collateral_given() <= released
    &&& user.usdc_free as int + (released - swap.collateral_given()) <= u64::MAX as int
    &&& released <= user.usdc_collateral_locked_as_user as int
    &&& bought_back <= user.scontract_sold_as_user as int
    &&& net_after(user.contract_position_net, bought_back as u64, 0) <= i64::MAX as int
    &&& released <= contract.global_current_locked_usdc as int
    &&& bought_back <= contract.global_current_issued_lcontract as int
}

/// The closing of a short position, where it is defined.
pub open spec fn short_closed(contract: ContractState, user: UserState, swap: SwapObservation)
    -> Outcome {
    let bought_back = swap.units_gained();
    let released = collateral_for(contract, bought_back as u64);
    let to_free = released - swap.collateral_given();
    Outcome {
        contract: ContractState {
            global_current_locked_usdc: (contract.global_current_locked_usdc as int
                - released) as u64,
            global_current_issued_lcontract: (contract.global_current_issued_lcontract as int
                - bought_back) as u64,
            ..contract
        },
        user: UserState {
            usdc_free: (user.usdc_free as int + to_free) as u64,
            usdc_collateral_locked_as_user: (user.usdc_collateral_locked_as_user as int
                - released) as u64,
            scontract_sold_as_user: (user.scontract_sold_as_user as int - bought_back) as u64,
            contract_position_net: net_after(
                user.contract_position_net,
                bought_back as u64,
                0,
            ) as i64,
            ..user
        },
        movements: Movements {
            locked_to_free: to_free as u64,
            burn_long: bought_back as u64,
            burn_short: bought_back as u64,
            ..Movements::none()
        },
    }
}

/// What closing a short position does.
///
/// The venue buys long units back out of the position's locked collateral.
/// The units that arrived, not the units asked for, are burnt together with
/// as many short units; the full amplitude for each of them leaves the
/// locked collateral, and what the purchase did not cost goes to the free
/// collateral. The platform's aggregates go down by the same units and
/// collateral. Position and platform must be healthy afterwards.
///
/// `swap` holds the position's long units and locked collateral before and
/// after the purchase.
pub open spec fn close_short_user_outcome(
    contract: ContractState,
    user: UserState,
    swap: SwapObservation,
) -> Result<Outcome, ErrorCode> {
    if !short_close_defined(contract, user, swap) {
        Err(ErrorCode::Overflow)
    } else {
        let outcome = short_closed(contract, user, swap);
        match trading_check(outcome.contract, outcome.user) {
            Err(e) => Err(e),
            Ok(_) => Ok(outcome),
        }
    }
}

/// Closes as much of a short position as the venue bought back.
pub fn handle(contract: &mut ContractState, user: &mut UserState, swap: SwapObservation) -> (r:
    Result<Movements, ErrorCode>)
    ensures
        applied(
            *old(contract),
            *old(user),
            *final(contract),
            *final(user),
            r,
            close_short_user_outcome(*old(contract), *old(user), swap),
        ),
{
    let amplitude: u64 = contract.limiting_amplitude;
    let cost: u64 = rise(swap.collateral_after, swap.collateral_before);
    let bought_back: u64 = rise(swap.units_before, swap.units_after);
    let released = match amplitude.checked_mul(bought_back) {
        Some(v) => v,
        None => { return Err(ErrorCode::Overflow); },
    };
    let to_free = match released.checked_sub(cost) {
        Some(v) => v,
        None => { return Err(ErrorCode::Overflow); },
    };
    let free = match user.usdc_free.checked_add(to_free) {
        Some(v) => v,
        None => { return Err(ErrorCode::Overflow); },
    };
    let locked = match user.usdc_collateral_locked_as_user.checked_sub(released) {
        Some(v) => v,
        None => { return Err(ErrorCode::Overflow); },
    };
    let sold = match user.scontract_sold_as_user.checked_sub(bought_back) {
        Some(v) => v,
        None => { return Err(ErrorCode::Overflow); },
    };
    let net = match net_shift(user.contract_position_net, bought_back, 0) {
        Ok(v) => v,
        Err(e) => { return Err(e); },
    };
    let global_locked = match contract.global_current_locked_usdc.checked_sub(released) {
        Some(v) => v,
        None => { return Err(ErrorCode::Overflow); },
    };
    let global_issued = match contract.global_current_issued_lcontract.checked_sub(bought_back) {
        Some(v) => v,
        None => { return Err(ErrorCode::Overflow); },
    };
    match check_solvency(
        locked,
        user.usdc_collateral_locked_as_mm,
        sold,
        user.lcontract_minted_as_mm,
        amplitude,
        global_locked,
        global_issued,
        amplitude,
        1,
    ) {
        Err(e) => { return Err(e); },
        Ok(_) => {},
    }
    contract.global_current_locked_usdc = global_locked;
    contract.global_current_issued_lcontract = global_issued;
    user.usdc_free = free;
    user.usdc_collateral_locked_as_user = locked;
    user.scontract_sold_as_user = sold;
    user.contract_position_net = net;
    let mut movements = Movements::none();
    movements.locked_to_free = to_free;
    movements.burn_long = bought_back;
    movements.burn_short = bought_back;
    Ok(movements)
}

} // verus!
