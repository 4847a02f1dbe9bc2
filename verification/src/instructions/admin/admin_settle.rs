use vstd::prelude::*;
use crate::custody::Movements;
use crate::errors::ErrorCode;
use crate::guard::check_platform;
use crate::guard::platform_check;
use crate::instructions::applied;
use crate::instructions::Outcome;
use crate::payout::gains;
use crate::payout::position_gains;
use crate::payout::scaled_payout;
use crate::states::contract_state::ContractState;
use crate::states::user_state::net_shift;
use crate::states::user_state::UserState;

verus! {

/// What the short side of a position is paid at the recorded ending price:
/// the units sold and the units minted as market maker, each rounded down on
/// its own.
pub open spec fn short_side_gains(contract: ContractState, user: UserState) -> int {
    gains(user.scontract_sold_as_user, contract.short_scaled(), contract.oracle_price_multiplier)
        + gains(
        user.lcontract_minted_as_mm,
        contract.short_scaled(),
        contract.oracle_price_multiplier,
    )
}

/// The collateral that stands behind the short side of a position: the full
/// amplitude for every unit.
pub open spec fn short_side_stake(contract: ContractState, user: UserState) -> int {
    user.issued_units() * (contract.limiting_amplitude as int)
}

/// Every number of the redemption is a value of its type.
pub open spec fn short_side_defined(contract: ContractState, user: UserState) -> bool {
    &&& contract.band_defined()
    &&& contract.oracle_price_multiplier > 0
    &&& user.scontract_sold_as_user as int * contract.short_scaled() <= u64::MAX as int
    &&& user.lcontract_minted_as_mm as int * contract.short_scaled() <= u64::MAX as int
    &&& short_side_stake(contract, user) <= u64::MAX as int
    &&& short_side_gains(contract, user) <= contract.global_current_locked_usdc as int
    &&& user.usdc_free as int + short_side_gains(contract, user) <= u64::MAX as int
    &&& i64::MIN as int <= user.contract_position_net as int + user.issued_units()
        <= i64::MAX as int
}

/// The redemption of a position's short side, where it is defined.
pub open spec fn short_side_redeemed(contract: ContractState, user: UserState) -> Outcome {
    let paid = short_side_gains(contract, user);
    Outcome {
        contract: ContractState {
            global_current_locked_usdc: (contract.global_current_locked_usdc as int - paid) as u64,
            ..contract
        },
        user: UserState {
            issettled: true,
            contract_position_net: (user.contract_position_net as int + user.issued_units()) as i64,
            scontract_sold_as_user: 0,
            usdc_collateral_locked_as_user: 0,
            lcontract_minted_as_mm: 0,
            usdc_collateral_locked_as_mm: 0,
            usdc_free: (user.usdc_free as int + paid) as u64,
            ..user
        },
        movements: Movements {
            locked_to_free: paid as u64,
            locked_to_escrow: (short_side_stake(contract, user) - paid) as u64,
            burn_short: user.issued_units() as u64,
            ..Movements::none()
        },
    }
}

/// What redeeming the short side of a position does.
///
/// Outside the settling phase it fails with `NotSettling`. A position with
/// no unit sold or minted is left as it is. Otherwise the position is paid
/// its gains at the recorded ending price into its free collateral, the rest
/// of its stake goes to the shared escrow, its short side is zeroed, and the
/// platform's locked collateral goes down by what was paid. The issued units
/// stay: they go down when the long side redeems. The platform must remain
/// healthy at the long side's payout.
pub open spec fn admin_settle_outcome(contract: ContractState, user: UserState) -> Result<
    Outcome,
    ErrorCode,
> {
    if !contract.is_settling {
        Err(ErrorCode::NotSettling)
    } else if user.issued_units() == 0 {
        Ok(Outcome { contract, user, movements: Movements::none() })
    } else if !short_side_defined(contract, user) {
        Err(ErrorCode::Overflow)
    } else {
        let outcome = short_side_redeemed(contract, user);
        match platform_check(
            outcome.contract.global_current_locked_usdc,
            outcome.contract.global_current_issued_lcontract,
            contract.long_scaled() as u64,
            contract.oracle_price_multiplier,
        ) {
            Err(e) => Err(e),
            Ok(_) => Ok(outcome),
        }
    }
}

/// Redeems the short side of a position, as seller and as market maker.
pub fn handle(contract: &mut ContractState, user: &mut UserState) -> (r: Result<
    Movements,
    ErrorCode,
>)
    ensures
        applied(
            *old(contract),
            *old(user),
            *final(contract),
            *final(user),
            r,
            admin_settle_outcome(*old(contract), *old(user)),
        ),
{
    if !contract.is_settling {
        return Err(ErrorCode::NotSettling);
    }
    let sold: u64 = user.scontract_sold_as_user;
    let minted: u64 = user.lcontract_minted_as_mm;
    if sold == 0 && minted == 0 {
        return Ok(Movements::none());
    }
    let amplitude: u64 = contract.limiting_amplitude;
    let scale: u64 = contract.oracle_price_multiplier;
    let per_unit = match scaled_payout(
        contract.starting_price,
        contract.ending_price,
        amplitude,
        scale,
    ) {
        Ok(p) => p,
        Err(e) => { return Err(e); },
    };
    let gains_user = match position_gains(sold, per_unit.short, scale) {
        Ok(v) => v,
        Err(e) => { return Err(e); },
    };
    let gains_mm = match position_gains(minted, per_unit.short, scale) {
        Ok(v) => v,
        Err(e) => { return Err(e); },
    };
    let units = match sold.checked_add(minted) {
        Some(v) => v,
        None => { return Err(ErrorCode::Overflow); },
    };
    let stake = match units.checked_mul(amplitude) {
        Some(v) => v,
        None => { return Err(ErrorCode::Overflow); },
    };
    proof {
        lemma_gains_within_stake(sold, per_unit.short as int, scale, amplitude);
        lemma_gains_within_stake(minted, per_unit.short as int, scale, amplitude);
        assert((sold + minted) * amplitude == sold * amplitude + minted * amplitude)
            by (nonlinear_arith);
    }
    let paid: u64 = gains_user + gains_mm;
    let lost: u64 = stake - paid;
    let locked_left = match contract.global_current_locked_usdc.checked_sub(paid) {
        Some(v) => v,
        None => { return Err(ErrorCode::Overflow); },
    };
    let free = match user.usdc_free.checked_add(paid) {
        Some(v) => v,
        None => { return Err(ErrorCode::Overflow); },
    };
    let net = match net_shift(user.contract_position_net, units, 0) {
        Ok(v) => v,
        Err(e) => { return Err(e); },
    };
    match check_platform(
        locked_left,
        contract.global_current_issued_lcontract,
        per_unit.long,
        scale,
    ) {
        Err(e) => { return Err(e); },
        Ok(_) => {},
    }
    contract.global_current_locked_usdc = locked_left;
    user.issettled = true;
    user.contract_position_net = net;
    user.scontract_sold_as_user = 0;
    user.usdc_collateral_locked_as_user = 0;
    user.lcontract_minted_as_mm = 0;
    user.usdc_collateral_locked_as_mm = 0;
    user.usdc_free = free;
    let mut movements = Movements::none();
    movements.locked_to_free = paid;
    movements.locked_to_escrow = lost;
    movements.burn_short = units;
    Ok(movements)
}

/// A side that gains at most the scaled amplitude per unit is paid at most
/// the amplitude for every unit.
pub proof fn lemma_gains_within_stake(units: u64, per_unit_scaled: int, scale: u64, amplitude: u64)
    requires
        scale > 0,
        0 <= per_unit_scaled <= amplitude as int * scale as int,
    ensures
        0 <= gains(units, per_unit_scaled, scale) <= units as int * amplitude as int,
{
    let n = units as int;
    let s = scale as int;
    let a = amplitude as int;
    let product = n * per_unit_scaled;
    assert(0 <= product <= (n * a) * s) by (nonlinear_arith)
        requires
            0 <= n,
            0 <= per_unit_scaled <= a * s,
            product == n * per_unit_scaled,
    ;
    assert(0 <= product / s <= n * a) by (nonlinear_arith)
        requires
            s > 0,
            0 <= product <= (n * a) * s,
    ;
}

} // verus!
