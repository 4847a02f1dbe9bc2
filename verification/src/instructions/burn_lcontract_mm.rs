use vstd::prelude::*;
use crate::custody::Movements;
use crate::errors::ErrorCode;
use crate::guard::check_solvency;
use crate::guard::trading_check;
use crate::instructions::applied;
use crate::instructions::mint_lcontract_mm::mint_lcontract_mm_outcome;
use crate::instructions::short_user::collateral_for;
use crate::instructions::Outcome;
use crate::states::contract_state::ContractState;
use crate::states::user_state::net_after;
use crate::states::user_state::net_shift;
use crate::states::user_state::UserState;

verus! {

/// Every number of the burning is a value of its type: the units and their
/// collateral are there to be taken off the position and the platform.
pub open spec fn burn_defined(contract: ContractState, user: UserState, amount: u64) -> bool {
    let released = collateral_for(contract, amount);
    &&& released <= user.usdc_collateral_locked_as_mm as int
    &&& amount <= user.lcontract_minted_as_mm
    &&& net_after(user.contract_position_net, amount, 0) <= i64::MAX as int
    &&& user.usdc_free as int + released <= u64::MAX as int
    &&& released <= contract.global_current_locked_usdc as int
    &&& amount <= contract.global_current_issued_lcontract
}

/// The burning, where it is defined.
pub open spec fn burnt(contract: ContractState, user: UserState, amount: u64) -> Outcome {
    let released = collateral_for(contract, amount);
    Outcome {
        contract: ContractState {
            global_current_locked_usdc: (contract.global_current_locked_usdc as int
                - released) as u64,
            global_current_issued_lcontract: (contract.global_current_issued_lcontract as int
                - amount as int) as u64,
            ..contract
        },
        user: UserState {
            usdc_collateral_locked_as_mm: (user.usdc_collateral_locked_as_mm as int
                - released) as u64,
            lcontract_minted_as_mm: (user.lcontract_minted_as_mm as int - amount as int) as u64,
            contract_position_net: net_after(user.contract_position_net, amount, 0) as i64,
            usdc_free: (user.usdc_free as int + released) as u64,
            ..user
        },
        movements: Movements {
            locked_to_free: released as u64,
            burn_long: amount,
            burn_short: amount,
            ..Movements::none()
        },
    }
}

/// What burning `amount` long units as market maker does.
///
/// `amount` long units and as many short units are burnt, and the full
/// amplitude for every unit moves from the position's locked collateral back
/// to its free collateral. The platform's aggregates go down by the same
/// units and collateral. Position and platform must be healthy afterwards.
pub open spec fn burn_lcontract_mm_outcome(contract: ContractState, user: UserState, amount: u64)
    -> Result<Outcome, ErrorCode> {
    if !burn_defined(contract, user, amount) {
        Err(ErrorCode::Overflow)
    } else {
        let outcome = burnt(contract, user, amount);
        match trading_check(outcome.contract, outcome.user) {
            Err(e) => Err(e),
            Ok(_) => Ok(outcome),
        }
    }
}

/// Burns `amount` long units as market maker.
pub fn handle(contract: &mut ContractState, user: &mut UserState, amount: u64) -> (r: Result<
    Movements,
    ErrorCode,
>)
    ensures
        applied(
            *old(contract),
            *old(user),
            *final(contract),
            *final(user),
            r,
            burn_lcontract_mm_outcome(*old(contract), *old(user), amount),
        ),
{
    let amplitude: u64 = contract.limiting_amplitude;
    let released = match amplitude.checked_mul(amount) {
        Some(v) => v,
        None => { return Err(ErrorCode::Overflow); },
    };
    let locked = match user.usdc_collateral_locked_as_mm.checked_sub(released) {
        Some(v) => v,
        None => { return Err(ErrorCode::Overflow); },
    };
    let minted = match user.lcontract_minted_as_mm.checked_sub(amount) {
        Some(v) => v,
        None => { return Err(ErrorCode::Overflow); },
    };
    let net = match net_shift(user.contract_position_net, amount, 0) {
        Ok(v) => v,
        Err(e) => { return Err(e); },
    };
    let free = match user.usdc_free.checked_add(released) {
        Some(v) => v,
        None => { return Err(ErrorCode::Overflow); },
    };
    let global_locked = match contract.global_current_locked_usdc.checked_sub(released) {
        Some(v) => v,
        None => { return Err(ErrorCode::Overflow); },
    };
    let global_issued = match contract.global_current_issued_lcontract.checked_sub(amount) {
        Some(v) => v,
        None => { return Err(ErrorCode::Overflow); },
    };
    match check_solvency(
        user.usdc_collateral_locked_as_user,
        locked,
        user.scontract_sold_as_user,
        minted,
        amplitude,
        global_locked,
        global_issued,
        amplitude,
        1,
    ) {
        Err(e) => { return Err(e); },
        Ok(_) => {},
    }
    contract.global_current_locked_usdc = global_locked;
    contract.global_current_issued_lcontract = global_issued;
    user.usdc_collateral_locked_as_mm = locked;
    user.lcontract_minted_as_mm = minted;
    user.contract_position_net = net;
    user.usdc_free = free;
    let mut movements = Movements::none();
    movements.locked_to_free = released;
    movements.burn_long = amount;
    movements.burn_short = amount;
    Ok(movements)
}

/// Burning what was just minted: where the mint succeeded and the record
/// of free collateral can take the collateral released, the burn succeeds
/// and puts contract and position back as they were before the mint, but
/// for that record: minting leaves it, burning adds to it, so it ends
/// higher by the collateral of the units.
pub proof fn lemma_burn_after_mint(contract: ContractState, user: UserState, amount: u64)
    requires
        mint_lcontract_mm_outcome(contract, user, amount) is Ok,
        user.usdc_free as int + collateral_for(contract, amount) <= u64::MAX as int,
    ensures
        ({
            let minted = mint_lcontract_mm_outcome(contract, user, amount)->Ok_0;
            let burnt = burn_lcontract_mm_outcome(minted.contract, minted.user, amount);
            &&& burnt is Ok
            &&& burnt->Ok_0.contract == contract
            &&& burnt->Ok_0.user == (UserState {
                usdc_free: (user.usdc_free as int + collateral_for(contract, amount)) as u64,
                ..user
            })
            &&& burnt->Ok_0.movements.locked_to_free == minted.movements.free_to_locked
            &&& burnt->Ok_0.movements.burn_long == minted.movements.mint_long
            &&& burnt->Ok_0.movements.burn_short == minted.movements.mint_short
        }),
{
    let a = contract.limiting_amplitude as int;
    let n = amount as int;
    let units = user.issued_units();
    let issued = contract.global_current_issued_lcontract as int;
    assert((units + n) * a == units * a + a * n) by (nonlinear_arith);
    assert((issued + n) * a == issued * a + a * n) by (nonlinear_arith);
    let minted = mint_lcontract_mm_outcome(contract, user, amount)->Ok_0;
    let raised = minted.contract.global_current_issued_lcontract as int * a;
    assert(raised / 1 == raised);
    let back = issued * a;
    assert(back / 1 == back);
}

} // verus!
