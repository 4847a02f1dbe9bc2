use vstd::prelude::*;
use crate::custody::SwapObservation;
use crate::errors::ErrorCode;
use crate::states::user_state::net_after;
use crate::states::user_state::net_shift;
use crate::states::user_state::UserState;

verus! {

/// Whether `amount` units can be asked to be closed: the position holds as
/// many.
pub open spec fn within_position(user: UserState, amount: u64) -> Result<(), ErrorCode> {
    if amount > user.lcontract_bought_as_user {
        Err(ErrorCode::ClosePositionBiggerThanOpened)
    } else {
        Ok(())
    }
}

/// Checks that the position holds the units asked to be closed. This is
/// what is known before anything is sold.
pub fn check_within_position(user: &UserState, amount: u64) -> (r: Result<(), ErrorCode>)
    ensures
        r == within_position(*user, amount),
{
    if amount > user.lcontract_bought_as_user {
        return Err(ErrorCode::ClosePositionBiggerThanOpened);
    }
    Ok(())
}

/// Every number of the closing is a value of its type: the sale took units
/// away and brought collateral in, and the position held the units sold.
pub open spec fn long_close_defined(user: UserState, swap: SwapObservation) -> bool {
    let sold = swap.units_before as int - swap.units_after as int;
    let gathered = swap.collateral_after as int - swap.collateral_before as int;
    &&& 0 <= sold <= user.lcontract_bought_as_user as int
    &&& 0 <= gathered
    &&& user.usdc_free as int + gathered <= u64::MAX as int
    &&& i64::MIN as int <= net_after(user.contract_position_net, 0, sold as u64)
}

/// The position after the closing, where it is defined.
pub open spec fn long_closed(user: UserState, swap: SwapObservation) -> UserState {
    let sold = swap.units_before as int - swap.units_after as int;
    let gathered = swap.collateral_after as int - swap.collateral_before as int;
    UserState {
        usdc_free: (user.usdc_free as int + gathered) as u64,
        contract_position_net: net_after(user.contract_position_net, 0, sold as u64) as i64,
        lcontract_bought_as_user: (user.lcontract_bought_as_user as int - sold) as u64,
        ..user
    }
}

/// What closing `amount` units of a long position does to the position.
///
/// Asking for more than the position holds fails with
/// `ClosePositionBiggerThanOpened`. Otherwise the venue sells long units
/// into the position's free collateral; the units that left and the
/// collateral that arrived, not the amounts asked for, are entered in the
/// ledger. The custody account must then hold exactly the units that the
/// ledger records, `ErrorAccounting` otherwise. No collateral is locked and
/// no unit issued, so the contract's aggregates stay.
///
/// `swap` holds the position's long units and free collateral before and
/// after the sale.
pub open spec fn close_long_user_outcome(user: UserState, amount: u64, swap: SwapObservation)
    -> Result<UserState, ErrorCode> {
    if within_position(user, amount) is Err {
        Err(ErrorCode::ClosePositionBiggerThanOpened)
    } else if !long_close_defined(user, swap) {
        Err(ErrorCode::Overflow)
    } else if long_closed(user, swap).lcontract_bought_as_user != swap.units_after {
        Err(ErrorCode::ErrorAccounting)
    } else {
        Ok(long_closed(user, swap))
    }
}

/// Closes as much of a long position as the venue sold.
pub fn handle(user: &mut UserState, amount: u64, swap: SwapObservation) -> (r: Result<
    (),
    ErrorCode,
>)
    ensures
        match close_long_user_outcome(*old(user), amount, swap) {
            Ok(after) => r == Ok::<(), ErrorCode>(()) && *final(user) == after,
            Err(e) => r == Err::<(), ErrorCode>(e) && *final(user) == *old(user),
        },
{
    match check_within_position(user, amount) {
        Err(e) => { return Err(e); },
        Ok(_) => {},
    }
    let sold = match swap.units_before.checked_sub(swap.units_after) {
        Some(v) => v,
        None => { return Err(ErrorCode::Overflow); },
    };
    let gathered = match swap.collateral_after.checked_sub(swap.collateral_before) {
        Some(v) => v,
        None => { return Err(ErrorCode::Overflow); },
    };
    let free = match user.usdc_free.checked_add(gathered) {
        Some(v) => v,
        None => { return Err(ErrorCode::Overflow); },
    };
    let net = match net_shift(user.contract_position_net, 0, sold) {
        Ok(v) => v,
        Err(e) => { return Err(e); },
    };
    let held = match user.lcontract_bought_as_user.checked_sub(sold) {
        Some(v) => v,
        None => { return Err(ErrorCode::Overflow); },
    };
    if held != swap.units_after {
        return Err(ErrorCode::ErrorAccounting);
    }
    user.usdc_free = free;
    user.contract_position_net = net;
    user.lcontract_bought_as_user = held;
    Ok(())
}

/// When closing a long succeeds: the position holds the units asked for,
/// its custody account held what the ledger records, the sale took units
/// away and brought collateral in, and the sums fit their types. The units
/// sold leave the position and the signed record, and the proceeds are added
/// to the free collateral.
pub proof fn lemma_close_long_succeeds(user: UserState, amount: u64, swap: SwapObservation)
    requires
        amount <= user.lcontract_bought_as_user,
        swap.units_before == user.lcontract_bought_as_user,
        swap.units_after <= swap.units_before,
        swap.collateral_before <= swap.collateral_after,
        user.usdc_free as int + (swap.collateral_after - swap.collateral_before) <= u64::MAX as int,
        i64::MIN as int <= user.contract_position_net as int - (swap.units_before
            - swap.units_after),
    ensures
        close_long_user_outcome(user, amount, swap) == Ok::<UserState, ErrorCode>(
            UserState {
                usdc_free: (user.usdc_free + (swap.collateral_after
                    - swap.collateral_before)) as u64,
                contract_position_net: (user.contract_position_net - (swap.units_before
                    - swap.units_after)) as i64,
                lcontract_bought_as_user: swap.units_after,
                ..user
            },
        ),
{
}

} // verus!
