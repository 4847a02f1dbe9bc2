use vstd::prelude::*;
use crate::custody::rise;
use crate::custody::SwapObservation;
use crate::errors::ErrorCode;
use crate::states::user_state::net_after;
use crate::states::user_state::net_shift;
use crate::states::user_state::UserState;

verus! {

/// Whether the position may open a long: it holds no short units.
pub open spec fn short_side_closed(user: UserState) -> Result<(), ErrorCode> {
    if user.scontract_sold_as_user > 0 {
        Err(ErrorCode::CloseShortBeforeLong)
    } else {
        Ok(())
    }
}

/// Checks that the position holds no short units. This is what is known
/// before anything is bought.
pub fn check_short_side_closed(user: &UserState) -> (r: Result<(), ErrorCode>)
    ensures
        r == short_side_closed(*user),
{
    if user.scontract_sold_as_user > 0 {
        return Err(ErrorCode::CloseShortBeforeLong);
    }
    Ok(())
}

/// Every number of the opening is a value of its type.
pub open spec fn long_open_defined(user: UserState, swap: SwapObservation) -> bool {
    &&& user.lcontract_bought_as_user as int + swap.units_gained() <= u64::MAX as int
    &&& user.usdc_collateral_spent_as_user as int + swap.collateral_given() <= u64::MAX as int
    &&& net_after(user.contract_position_net, swap.units_gained() as u64, 0) <= i64::MAX as int
}

/// The position after the opening, where it is defined.
pub open spec fn long_opened(user: UserState, swap: SwapObservation) -> UserState {
    UserState {
        lcontract_bought_as_user: (user.lcontract_bought_as_user as int
            + swap.units_gained()) as u64,
        usdc_collateral_spent_as_user: (user.usdc_collateral_spent_as_user as int
            + swap.collateral_given()) as u64,
        contract_position_net: net_after(
            user.contract_position_net,
            swap.units_gained() as u64,
            0,
        ) as i64,
        ..user
    }
}

/// What opening a long position does to the position.
///
/// While the position holds short units it fails with
/// `CloseShortBeforeLong`, whatever the amount. Otherwise the venue buys
/// long units out of the position's free account; the units that arrived
/// are entered as bought and the collateral that left as spent, not the
/// amounts asked for. The ledger's record of free collateral is neither read
/// nor changed. The custody account must then hold exactly the
/// units that the ledger records, `ErrorAccounting` otherwise. No collateral
/// is locked and no unit issued, so the contract's aggregates stay.
///
/// `swap` holds the position's long units and free collateral before and
/// after the purchase.
pub open spec fn long_user_outcome(user: UserState, swap: SwapObservation) -> Result<
    UserState,
    ErrorCode,
> {
    if short_side_closed(user) is Err {
        Err(ErrorCode::CloseShortBeforeLong)
    } else if !long_open_defined(user, swap) {
        Err(ErrorCode::Overflow)
    } else if long_opened(user, swap).lcontract_bought_as_user != swap.units_after {
        Err(ErrorCode::ErrorAccounting)
    } else {
        Ok(long_opened(user, swap))
    }
}

/// Opens a long position of as many units as the venue delivered.
pub fn handle(user: &mut UserState, swap: SwapObservation) -> (r: Result<(), ErrorCode>)
    ensures
        match long_user_outcome(*old(user), swap) {
            Ok(after) => r == Ok::<(), ErrorCode>(()) && *final(user) == after,
            Err(e) => r == Err::<(), ErrorCode>(e) && *final(user) == *old(user),
        },
        old(user).scontract_sold_as_user > 0 ==> r == Err::<(), ErrorCode>(
            ErrorCode::CloseShortBeforeLong,
        ),
{
    match check_short_side_closed(user) {
        Err(e) => { return Err(e); },
        Ok(_) => {},
    }
    let bought: u64 = rise(swap.units_before, swap.units_after);
    let spent: u64 = rise(swap.collateral_after, swap.collateral_before);
    let held = match user.lcontract_bought_as_user.checked_add(bought) {
        Some(v) => v,
        None => { return Err(ErrorCode::Overflow); },
    };
    let spent_total = match user.usdc_collateral_spent_as_user.checked_add(spent) {
        Some(v) => v,
        None => { return Err(ErrorCode::Overflow); },
    };
    let net = match net_shift(user.contract_position_net, bought, 0) {
        Ok(v) => v,
        Err(e) => { return Err(e); },
    };
    if held != swap.units_after {
        return Err(ErrorCode::ErrorAccounting);
    }
    user.lcontract_bought_as_user = held;
    user.usdc_collateral_spent_as_user = spent_total;
    user.contract_position_net = net;
    Ok(())
}

} // verus!
