use vstd::prelude::*;
use crate::errors::ErrorCode;
use crate::states::contract_state::ContractState;
use crate::states::user_state::UserState;

verus! {

/// The position-level check: the locked collateral covers every issued unit
/// at the full amplitude. A sum or a product beyond `u64` is an overflow, not
/// a pass.
pub open spec fn position_check(locked: int, units: int, amplitude: u64) -> Result<(), ErrorCode> {
    if locked > u64::MAX as int || units > u64::MAX as int || units * (amplitude as int)
        > u64::MAX as int {
        Err(ErrorCode::Overflow)
    } else if units * (amplitude as int) > locked {
        Err(ErrorCode::ShortLeaveUnhealthy)
    } else {
        Ok(())
    }
}

/// The platform-level check: the collateral locked over all positions covers
/// every issued unit at `per_unit_scaled / scale`, the product taken first.
/// A product beyond `u64`, or a zero scale, is an overflow, not a pass.
pub open spec fn platform_check(locked: u64, issued: u64, per_unit_scaled: u64, scale: u64)
    -> Result<(), ErrorCode> {
    if scale == 0 || issued as int * per_unit_scaled as int > u64::MAX as int {
        Err(ErrorCode::Overflow)
    } else if (issued as int * per_unit_scaled as int) / (scale as int) > locked as int {
        Err(ErrorCode::PlatformUnhealthy)
    } else {
        Ok(())
    }
}

/// Both checks, the position's first.
pub open spec fn solvency_check(
    position_locked: int,
    position_units: int,
    amplitude: u64,
    global_locked: u64,
    global_issued: u64,
    per_unit_scaled: u64,
    scale: u64,
) -> Result<(), ErrorCode> {
    match position_check(position_locked, position_units, amplitude) {
        Err(e) => Err(e),
        Ok(_) => platform_check(global_locked, global_issued, per_unit_scaled, scale),
    }
}

/// Both checks while the contract trades, when a long unit may still come
/// to be worth the whole amplitude.
pub open spec fn trading_check(contract: ContractState, user: UserState) -> Result<(), ErrorCode> {
    solvency_check(
        user.locked_collateral(),
        user.issued_units(),
        contract.limiting_amplitude,
        contract.global_current_locked_usdc,
        contract.global_current_issued_lcontract,
        contract.limiting_amplitude,
        1,
    )
}

/// Checks a position whose collateral and units are each held in two parts:
/// what was sold short and what was minted as market maker.
pub fn check_position(
    locked_as_user: u64,
    locked_as_mm: u64,
    sold: u64,
    minted: u64,
    amplitude: u64,
) -> (r: Result<(), ErrorCode>)
    ensures
        r == position_check(
            locked_as_user as int + locked_as_mm as int,
            sold as int + minted as int,
            amplitude,
        ),
{
    let locked = match locked_as_user.checked_add(locked_as_mm) {
        Some(v) => v,
        None => { return Err(ErrorCode::Overflow); },
    };
    let units = match sold.checked_add(minted) {
        Some(v) => v,
        None => { return Err(ErrorCode::Overflow); },
    };
    let needed = match units.checked_mul(amplitude) {
        Some(v) => v,
        None => { return Err(ErrorCode::Overflow); },
    };
    if needed > locked {
        return Err(ErrorCode::ShortLeaveUnhealthy);
    }
    Ok(())
}

/// Checks the platform's aggregates.
pub fn check_platform(locked: u64, issued: u64, per_unit_scaled: u64, scale: u64) -> (r: Result<
    (),
    ErrorCode,
>)
    ensures
        r == platform_check(locked, issued, per_unit_scaled, scale),
{
    if scale == 0 {
        return Err(ErrorCode::Overflow);
    }
    let product = match issued.checked_mul(per_unit_scaled) {
        Some(v) => v,
        None => { return Err(ErrorCode::Overflow); },
    };
    if product / scale > locked {
        return Err(ErrorCode::PlatformUnhealthy);
    }
    Ok(())
}

/// Checks a position and then the platform; the first failure is returned.
pub fn check_solvency(
    locked_as_user: u64,
    locked_as_mm: u64,
    sold: u64,
    minted: u64,
    amplitude: u64,
    global_locked: u64,
    global_issued: u64,
    per_unit_scaled: u64,
    scale: u64,
) -> (r: Result<(), ErrorCode>)
    ensures
        r == solvency_check(
            locked_as_user as int + locked_as_mm as int,
            sold as int + minted as int,
            amplitude,
            global_locked,
            global_issued,
            per_unit_scaled,
            scale,
        ),
{
    match check_position(locked_as_user, locked_as_mm, sold, minted, amplitude) {
        Err(e) => Err(e),
        Ok(_) => check_platform(global_locked, global_issued, per_unit_scaled, scale),
    }
}

} // verus!
