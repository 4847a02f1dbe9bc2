use vstd::prelude::*;
use crate::custody::rise;
use crate::custody::Movements;
use crate::custody::SwapObservation;
use crate::errors::ErrorCode;
use crate::guard::check_solvency;
use crate::guard::trading_check;
use crate::instructions::applied;
use crate::instructions::Outcome;
use crate::states::contract_state::ContractState;
use crate::states::user_state::net_after;
use crate::states::user_state::net_shift;
use crate::states::user_state::UserState;

verus! {

/// The collateral that `amount` units need locked: the full amplitude each.
pub open spec fn collateral_for(contract: ContractState, amount: u64) -> int {
    contract.limiting_amplitude as int * amount as int
}

/// Whether the position may open a short: it holds no long units.
pub open spec fn long_side_closed(user: UserState) -> Result<(), ErrorCode> {
    if user.lcontract_bought_as_user > 0 {
        Err(ErrorCode::CloseLongBeforeShort)
    } else {
        Ok(())
    }
}

/// Checks that the position holds no long units. This is what is known
/// before any unit is minted or sold.
pub fn check_long_side_closed(user: &UserState) -> (r: Result<(), ErrorCode>)
    ensures
        r == long_side_closed(*user),
{
    if user.lcontract_bought_as_user > 0 {
        return Err(ErrorCode::CloseLongBeforeShort);
    }
    Ok(())
}

/// Every number of the opening is a value of its type, and the sale brought
/// no more than the collateral that is needed.
pub open spec fn short_open_defined(
    contract: ContractState,
    user: UserState,
    amount: u64,
    swap: SwapObservation,
) -> bool {
    let required = collateral_for(contract, amount);
    &&& required <= u64::MAX as int
    &&& swap.collateral_gained() <= required
    &&& user.usdc_collateral_locked_as_user as int + required <= u64::MAX as int
    &&& user.scontract_sold_as_user as int + amount as int <= u64::MAX as int
    &&& i64::MIN as int <= net_after(user.contract_position_net, 0, amount)
    &&& contract.global_current_locked_usdc as int + required <= u64::MAX as int
    &&& contract.global_current_issued_lcontract as int + amount as int <= u64::MAX as int
}

/// The opening of a short position, where it is defined.
pub open spec fn short_opened(
    contract: ContractState,
    user: UserState,
    amount: u64,
    swap: SwapObservation,
) -> Outcome {
    let required = collateral_for(contract, amount);
    let to_lock = required - swap.collateral_gained();
    Outcome {
        contract: ContractState {
            global_current_locked_usdc: (contract.global_current_locked_usdc as int
                + required) as u64,
            global_current_issued_lcontract: (contract.global_current_issued_lcontract as int
                + amount as int) as u64,
            ..contract
        },
        user: UserState {
            usdc_collateral_locked_as_user: (user.usdc_collateral_locked_as_user as int
                + required) as u64,
            scontract_sold_as_user: (user.scontract_sold_as_user as int + amount as int) as u64,
            contract_position_net: net_after(user.contract_position_net, 0, amount) as i64,
            ..user
        },
        movements: Movements {
            mint_long: amount,
            mint_short: amount,
            free_to_locked: to_lock as u64,
            ..Movements::none()
        },
    }
}

/// What opening a short position of `amount` units does.
///
/// While the position holds long units it fails with `CloseLongBeforeShort`,
/// whatever the amount. Otherwise `amount` long and short units are minted,
/// the long units are sold on the venue, and the position locks the full
/// amplitude for every unit: what the sale brought into the locked account
/// counts towards it, the rest is ordered to be moved from the free account
/// to the locked one. Whether the free account holds that much is for the
/// transfer to find: the ledger's record of free collateral is neither read
/// nor changed. The platform's aggregates go up by the same units and
/// collateral. Position and platform must be healthy afterwards.
///
/// `swap` holds the position's locked collateral before and after the sale.
pub open spec fn short_user_outcome(
    contract: ContractState,
    user: UserState,
    amount: u64,
    swap: SwapObservation,
) -> Result<Outcome, ErrorCode> {
    if long_side_closed(user) is Err {
        Err(ErrorCode::CloseLongBeforeShort)
    } else if !short_open_defined(contract, user, amount, swap) {
        Err(ErrorCode::Overflow)
    } else {
        let outcome = short_opened(contract, user, amount, swap);
        match trading_check(outcome.contract, outcome.user) {
            Err(e) => Err(e),
            Ok(_) => Ok(outcome),
        }
    }
}

/// Opens a short position of `amount` units.
pub fn handle(
    contract: &mut ContractState,
    user: &mut UserState,
    amount: u64,
    swap: SwapObservation,
) -> (r: Result<Movements, ErrorCode>)
    ensures
        applied(
            *old(contract),
            *old(user),
            *final(contract),
            *final(user),
            r,
            short_user_outcome(*old(contract), *old(user), amount, swap),
        ),
        old(user).lcontract_bought_as_user > 0 ==> r == Err::<Movements, ErrorCode>(
            ErrorCode::CloseLongBeforeShort,
        ),
{
    match check_long_side_closed(user) {
        Err(e) => { return Err(e); },
        Ok(_) => {},
    }
    let amplitude: u64 = contract.limiting_amplitude;
    let proceeds: u64 = rise(swap.collateral_before, swap.collateral_after);
    let required = match amplitude.checked_mul(amount) {
        Some(v) => v,
        None => { return Err(ErrorCode::Overflow); },
    };
    let to_lock = match required.checked_sub(proceeds) {
        Some(v) => v,
        None => { return Err(ErrorCode::Overflow); },
    };
    let locked = match user.usdc_collateral_locked_as_user.checked_add(required) {
        Some(v) => v,
        None => { return Err(ErrorCode::Overflow); },
    };
    let sold = match user.scontract_sold_as_user.checked_add(amount) {
        Some(v) => v,
        None => { return Err(ErrorCode::Overflow); },
    };
    let net = match net_shift(user.contract_position_net, 0, amount) {
        Ok(v) => v,
        Err(e) => { return Err(e); },
    };
    let global_locked = match contract.global_current_locked_usdc.checked_add(required) {
        Some(v) => v,
        None => { return Err(ErrorCode::Overflow); },
    };
    let global_issued = match contract.global_current_issued_lcontract.checked_add(amount) {
        Some(v) => v,
        None => { return Err(ErrorCode::Overflow); },
    };
    match check_solvency(
        locked,
        user.usdc_collateral_locked_as_mm,
        sold,
        user.lcontract_minted_as_mm,
        amplitude,
        global_locked,
        global_issued,
        amplitude,
        1,
    ) {
        Err(e) => { return Err(e); },
        Ok(_) => {},
    }
    contract.global_current_locked_usdc = global_locked;
    contract.global_current_issued_lcontract = global_issued;
    user.usdc_collateral_locked_as_user = locked;
    user.scontract_sold_as_user = sold;
    user.contract_position_net = net;
    let mut movements = Movements::none();
    movements.mint_long = amount;
    movements.mint_short = amount;
    movements.free_to_locked = to_lock;
    Ok(movements)
}

/// When opening a short succeeds: the position holds no long units, the
/// sale brought no more than the collateral needed, the sums fit their
/// types, and position and platform covered their issued units before.
/// Position and platform then go up by the same units and the same
/// collateral, and what the sale did not bring is ordered to be moved from
/// the free account to the locked one.
pub proof fn lemma_short_succeeds(
    contract: ContractState,
    user: UserState,
    amount: u64,
    swap: SwapObservation,
)
    requires
        user.lcontract_bought_as_user == 0,
        short_open_defined(contract, user, amount, swap),
        user.locked_collateral() + collateral_for(contract, amount) <= u64::MAX as int,
        user.issued_units() + amount as int <= u64::MAX as int,
        user.issued_units() * (contract.limiting_amplitude as int) <= user.locked_collateral(),
        contract.global_current_issued_lcontract as int * contract.limiting_amplitude as int
            <= contract.global_current_locked_usdc as int,
    ensures
        short_user_outcome(contract, user, amount, swap) == Ok::<Outcome, ErrorCode>(
            short_opened(contract, user, amount, swap),
        ),
        short_opened(contract, user, amount, swap).movements.free_to_locked as int
            == collateral_for(contract, amount) - swap.collateral_gained(),
        short_opened(contract, user, amount, swap).user.usdc_free == user.usdc_free,
        short_opened(contract, user, amount, swap).user.issued_units() == user.issued_units()
            + amount,
        short_opened(contract, user, amount, swap).user.locked_collateral()
            == user.locked_collateral() + collateral_for(contract, amount),
        short_opened(contract, user, amount, swap).contract.global_current_issued_lcontract as int
            == contract.global_current_issued_lcontract as int + amount as int,
        short_opened(contract, user, amount, swap).contract.global_current_locked_usdc as int
            == contract.global_current_locked_usdc as int + collateral_for(contract, amount),
{
    let a = contract.limiting_amplitude as int;
    let n = amount as int;
    let units = user.issued_units();
    let issued = contract.global_current_issued_lcontract as int;
    assert((units + n) * a == units * a + a * n) by (nonlinear_arith);
    assert((issued + n) * a == issued * a + a * n) by (nonlinear_arith);
    let after = short_opened(contract, user, amount, swap);
    let needed = after.contract.global_current_issued_lcontract as int * a;
    assert(needed / 1 == needed);
}

} // verus!
