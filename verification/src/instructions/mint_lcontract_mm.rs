use vstd::prelude::*;
use crate::custody::Movements;
use crate::errors::ErrorCode;
use crate::guard::check_solvency;
use crate::guard::trading_check;
use crate::instructions::applied;
use crate::instructions::short_user::collateral_for;
use crate::instructions::Outcome;
use crate::states::contract_state::ContractState;
use crate::states::user_state::net_after;
use crate::states::user_state::net_shift;
use crate::states::user_state::UserState;

verus! {

/// Every number of the minting is a value of its type.
pub open spec fn mint_defined(contract: ContractState, user: UserState, amount: u64) -> bool {
    let required = collateral_for(contract, amount);
    &&& required <= u64::MAX as int
    &&& user.usdc_collateral_locked_as_mm as int + required <= u64::MAX as int
    &&& user.lcontract_minted_as_mm as int + amount as int <= u64::MAX as int
    &&& i64::MIN as int <= net_after(user.contract_position_net, 0, amount)
    &&& contract.global_current_locked_usdc as int + required <= u64::MAX as int
    &&& contract.global_current_issued_lcontract as int + amount as int <= u64::MAX as int
}

/// The minting, where it is defined.
pub open spec fn minted(contract: ContractState, user: UserState, amount: u64) -> Outcome {
    let required = collateral_for(contract, amount);
    Outcome {
        contract: ContractState {
            global_current_locked_usdc: (contract.global_current_locked_usdc as int
                + required) as u64,
            global_current_issued_lcontract: (contract.global_current_issued_lcontract as int
                + amount as int) as u64,
            ..contract
        },
        user: UserState {
            usdc_collateral_locked_as_mm: (user.usdc_collateral_locked_as_mm as int
                + required) as u64,
            lcontract_minted_as_mm: (user.lcontract_minted_as_mm as int + amount as int) as u64,
            contract_position_net: net_after(user.contract_position_net, 0, amount) as i64,
            ..user
        },
        movements: Movements {
            free_to_locked: required as u64,
            mint_long: amount,
            mint_short: amount,
            ..Movements::none()
        },
    }
}

/// What minting `amount` long units as market maker does.
///
/// The full amplitude for every unit is ordered to be moved from the
/// position's free account to its locked account and is entered as locked,
/// `amount` long units are minted for the market maker to place on the
/// venue, and as many short units are minted into the position's custody.
/// Whether the free account holds that much is for the transfer to find: the
/// ledger's record of free collateral is neither read nor changed. The
/// platform's aggregates go up by the same units and collateral. Position
/// and platform must be healthy afterwards.
pub open spec fn mint_lcontract_mm_outcome(contract: ContractState, user: UserState, amount: u64)
    -> Result<Outcome, ErrorCode> {
    if !mint_defined(contract, user, amount) {
        Err(ErrorCode::Overflow)
    } else {
        let outcome = minted(contract, user, amount);
        match trading_check(outcome.contract, outcome.user) {
            Err(e) => Err(e),
            Ok(_) => Ok(outcome),
        }
    }
}

/// Mints `amount` long units as market maker.
pub fn handle(contract: &mut ContractState, user: &mut UserState, amount: u64) -> (r: Result<
    Movements,
    ErrorCode,
>)
    ensures
        applied(
            *old(contract),
            *old(user),
            *final(contract),
            *final(user),
            r,
            mint_lcontract_mm_outcome(*old(contract), *old(user), amount),
        ),
{
    let amplitude: u64 = contract.limiting_amplitude;
    let required = match amplitude.checked_mul(amount) {
        Some(v) => v,
        None => { return Err(ErrorCode::Overflow); },
    };
    let locked = match user.usdc_collateral_locked_as_mm.checked_add(required) {
        Some(v) => v,
        None => { return Err(ErrorCode::Overflow); },
    };
    let minted = match user.lcontract_minted_as_mm.checked_add(amount) {
        Some(v) => v,
        None => { return Err(ErrorCode::Overflow); },
    };
    let net = match net_shift(user.contract_position_net, 0, amount) {
        Ok(v) => v,
        Err(e) => { return Err(e); },
    };
    let global_locked = match contract.global_current_locked_usdc.checked_add(required) {
        Some(v) => v,
        None => { return Err(ErrorCode::Overflow); },
    };
    let global_issued = match contract.global_current_issued_lcontract.checked_add(amount) {
        Some(v) => v,
        None => { return Err(ErrorCode::Overflow); },
    };
    match check_solvency(
        user.usdc_collateral_locked_as_user,
        locked,
        user.scontract_sold_as_user,
        minted,
        amplitude,
        global_locked,
        global_issued,
        amplitude,
        1,
    ) {
        Err(e) => { return Err(e); },
        Ok(_) => {},
    }
    contract.global_current_locked_usdc = global_locked;
    contract.global_current_issued_lcontract = global_issued;
    user.usdc_collateral_locked_as_mm = locked;
    user.lcontract_minted_as_mm = minted;
    user.contract_position_net = net;
    let mut movements = Movements::none();
    movements.free_to_locked = required;
    movements.mint_long = amount;
    movements.mint_short = amount;
    Ok(movements)
}

/// When minting succeeds: the sums fit their types, and position and
/// platform covered their issued units before. Position and platform then
/// go up by the same units and the same collateral, and cover their issued
/// units afterwards.
pub proof fn lemma_mint_succeeds(contract: ContractState, user: UserState, amount: u64)
    requires
        mint_defined(contract, user, amount),
        user.locked_collateral() + collateral_for(contract, amount) <= u64::MAX as int,
        user.issued_units() + amount as int <= u64::MAX as int,
        user.issued_units() * (contract.limiting_amplitude as int) <= user.locked_collateral(),
        contract.global_current_issued_lcontract as int * contract.limiting_amplitude as int
            <= contract.global_current_locked_usdc as int,
    ensures
        mint_lcontract_mm_outcome(contract, user, amount) == Ok::<Outcome, ErrorCode>(
            minted(contract, user, amount),
        ),
        minted(contract, user, amount).user.issued_units() == user.issued_units() + amount,
        minted(contract, user, amount).user.locked_collateral() == user.locked_collateral()
            + collateral_for(contract, amount),
        minted(contract, user, amount).contract.global_current_issued_lcontract as int
            == contract.global_current_issued_lcontract as int + amount as int,
        minted(contract, user, amount).contract.global_current_locked_usdc as int
            == contract.global_current_locked_usdc as int + collateral_for(contract, amount),
{
    let a = contract.limiting_amplitude as int;
    let n = amount as int;
    let units = user.issued_units();
    let issued = contract.global_current_issued_lcontract as int;
    assert((units + n) * a == units * a + a * n) by (nonlinear_arith);
    assert((issued + n) * a == issued * a + a * n) by (nonlinear_arith);
    let after = minted(contract, user, amount);
    let needed = after.contract.global_current_issued_lcontract as int * a;
    assert(needed / 1 == needed);
}

} // verus!
