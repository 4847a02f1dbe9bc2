use vstd::prelude::*;
use crate::errors::ErrorCode;
use crate::instructions::admin::admin_settle::admin_settle_outcome;
use crate::instructions::admin::admin_settle::lemma_gains_within_stake;
use crate::instructions::admin::admin_settle::short_side_gains;
use crate::instructions::mm_settle_long::mm_settle_long_outcome;
use crate::instructions::mm_settle_long::redeemed_gains;
use crate::instructions::trigger_settle_mode::trigger_settle_mode_outcome;
use crate::instructions::user_settle_long::long_side_gains;
use crate::instructions::user_settle_long::user_settle_long_outcome;
use crate::instructions::Outcome;
use crate::oracle::OracleReading;
use crate::guard::platform_check;
use crate::instructions::admin::admin_settle::short_side_stake;
use crate::payout::gains;
use crate::payout::lower_bound;
use crate::payout::upper_bound;
use crate::states::contract_state::phase_rank;
use crate::states::contract_state::ContractState;
use crate::states::contract_state::Phase;
use crate::states::user_state::UserState;

verus! {

/// Which side of a position is redeemed at settlement.
pub enum Redemption {
    /// The units sold short and the units minted as market maker.
    ShortSide,
    /// The long units bought, with what the position's custody account holds
    /// of them.
    LongSide { vault_long_units: u64 },
    /// Long units that the participant holds outside the position.
    Outside { amount: u64 },
}

/// What redeeming one side of a position does.
pub open spec fn redeemed(contract: ContractState, user: UserState, redemption: Redemption)
    -> Result<Outcome, ErrorCode> {
    match redemption {
        Redemption::ShortSide => admin_settle_outcome(contract, user),
        Redemption::LongSide { vault_long_units } => user_settle_long_outcome(
            contract,
            user,
            vault_long_units,
        ),
        Redemption::Outside { amount } => match mm_settle_long_outcome(contract, amount) {
            Ok(o) => Ok(Outcome { contract: o.contract, user, movements: o.movements }),
            Err(e) => Err(e),
        },
    }
}

/// The redemption finds units to redeem.
pub open spec fn redeems_units(user: UserState, redemption: Redemption) -> bool {
    match redemption {
        Redemption::ShortSide => user.issued_units() > 0,
        Redemption::LongSide { .. } => user.lcontract_bought_as_user > 0,
        Redemption::Outside { .. } => true,
    }
}

/// What a redemption pays out of the platform's locked collateral.
pub open spec fn redemption_paid(contract: ContractState, user: UserState, redemption: Redemption)
    -> int {
    match redemption {
        Redemption::ShortSide => if user.issued_units() > 0 {
            short_side_gains(contract, user)
        } else {
            0
        },
        Redemption::LongSide { .. } => if user.lcontract_bought_as_user > 0 {
            long_side_gains(contract, user)
        } else {
            0
        },
        Redemption::Outside { amount } => redeemed_gains(contract, amount),
    }
}

/// The long units that a redemption takes off the platform's issued units.
pub open spec fn redemption_units(user: UserState, redemption: Redemption) -> int {
    match redemption {
        Redemption::ShortSide => 0,
        Redemption::LongSide { .. } => user.lcontract_bought_as_user as int,
        Redemption::Outside { amount } => amount as int,
    }
}

/// Two contract records have the same terms: they are both settling or both
/// not, with the same prices, amplitude and scale.
pub open spec fn same_terms(c: ContractState, d: ContractState) -> bool {
    &&& c.is_settling == d.is_settling
    &&& c.starting_price == d.starting_price
    &&& c.ending_price == d.ending_price
    &&& c.limiting_amplitude == d.limiting_amplitude
    &&& c.oracle_price_multiplier == d.oracle_price_multiplier
}

/// What a redemption pays and what it leaves of the position depend on the
/// contract's terms and on the position alone, not on the platform's running
/// totals: two redemptions of one position that both succeed, under the same
/// terms, move the same value and leave the same position.
pub proof fn lemma_redemption_ignores_aggregates(
    c: ContractState,
    d: ContractState,
    user: UserState,
    redemption: Redemption,
)
    requires
        same_terms(c, d),
        redeemed(c, user, redemption) is Ok,
        redeemed(d, user, redemption) is Ok,
    ensures
        redeemed(c, user, redemption)->Ok_0.user == redeemed(d, user, redemption)->Ok_0.user,
        redeemed(c, user, redemption)->Ok_0.movements == redeemed(
            d,
            user,
            redemption,
        )->Ok_0.movements,
{
}

/// A redemption changes nothing of the contract but its running totals: the
/// locked collateral goes down by what is paid, the issued units by the long
/// units redeemed. What is paid depends on the contract's terms only.
pub proof fn lemma_redemption_takes_from_totals(
    contract: ContractState,
    other: ContractState,
    user: UserState,
    redemption: Redemption,
)
    requires
        redeemed(contract, user, redemption) is Ok,
    ensures
        redeemed(contract, user, redemption)->Ok_0.contract == (ContractState {
            global_current_locked_usdc: (contract.global_current_locked_usdc as int
                - redemption_paid(contract, user, redemption)) as u64,
            global_current_issued_lcontract: (contract.global_current_issued_lcontract as int
                - redemption_units(user, redemption)) as u64,
            ..contract
        }),
        0 <= redemption_paid(contract, user, redemption)
            <= contract.global_current_locked_usdc as int,
        0 <= redemption_units(user, redemption) <= contract.global_current_issued_lcontract as int,
        same_terms(contract, other) ==> redemption_paid(contract, user, redemption)
            == redemption_paid(other, user, redemption),
{
    match redemption {
        Redemption::ShortSide => {
            if user.issued_units() > 0 {
                lemma_gains_within_stake(
                    user.scontract_sold_as_user,
                    contract.short_scaled(),
                    contract.oracle_price_multiplier,
                    contract.limiting_amplitude,
                );
                lemma_gains_within_stake(
                    user.lcontract_minted_as_mm,
                    contract.short_scaled(),
                    contract.oracle_price_multiplier,
                    contract.limiting_amplitude,
                );
            }
        },
        Redemption::LongSide { .. } => {
            if user.lcontract_bought_as_user > 0 {
                lemma_gains_within_stake(
                    user.lcontract_bought_as_user,
                    contract.long_scaled(),
                    contract.oracle_price_multiplier,
                    contract.limiting_amplitude,
                );
            }
        },
        Redemption::Outside { amount } => {
            lemma_gains_within_stake(
                amount,
                contract.long_scaled(),
                contract.oracle_price_multiplier,
                contract.limiting_amplitude,
            );
        },
    }
}

/// A redemption keeps the contract's terms and takes from its running
/// totals only.
pub proof fn lemma_redemption_keeps_terms(
    contract: ContractState,
    user: UserState,
    redemption: Redemption,
)
    requires
        redeemed(contract, user, redemption) is Ok,
    ensures
        same_terms(contract, redeemed(contract, user, redemption)->Ok_0.contract),
        contract.is_settling,
        redeemed(contract, user, redemption)->Ok_0.contract.global_current_issued_lcontract
            <= contract.global_current_issued_lcontract,
        redeemed(contract, user, redemption)->Ok_0.contract.global_current_locked_usdc
            <= contract.global_current_locked_usdc,
        phase_rank(redeemed(contract, user, redemption)->Ok_0.contract.phase()) >= phase_rank(
            contract.phase(),
        ),
{
}

/// Settlement is independent of order: where two positions are redeemed one
/// after the other, and both orders succeed, each position is paid the same
/// and left the same in either order, and the contract ends up the same.
pub proof fn lemma_settlement_order_independent(
    contract: ContractState,
    a: UserState,
    b: UserState,
    redemption_a: Redemption,
    redemption_b: Redemption,
)
    requires
        redeemed(contract, a, redemption_a) is Ok,
        redeemed(redeemed(contract, a, redemption_a)->Ok_0.contract, b, redemption_b) is Ok,
        redeemed(contract, b, redemption_b) is Ok,
        redeemed(redeemed(contract, b, redemption_b)->Ok_0.contract, a, redemption_a) is Ok,
    ensures
        ({
            let a_first = redeemed(contract, a, redemption_a)->Ok_0;
            let b_second = redeemed(a_first.contract, b, redemption_b)->Ok_0;
            let b_first = redeemed(contract, b, redemption_b)->Ok_0;
            let a_second = redeemed(b_first.contract, a, redemption_a)->Ok_0;
            &&& a_first.user == a_second.user
            &&& a_first.movements == a_second.movements
            &&& b_first.user == b_second.user
            &&& b_first.movements == b_second.movements
            &&& b_second.contract == a_second.contract
        }),
{
    let a_first = redeemed(contract, a, redemption_a)->Ok_0;
    let b_first = redeemed(contract, b, redemption_b)->Ok_0;
    lemma_redemption_keeps_terms(contract, a, redemption_a);
    lemma_redemption_keeps_terms(contract, b, redemption_b);
    lemma_redemption_ignores_aggregates(contract, b_first.contract, a, redemption_a);
    lemma_redemption_ignores_aggregates(contract, a_first.contract, b, redemption_b);
    lemma_redemption_takes_from_totals(contract, b_first.contract, a, redemption_a);
    lemma_redemption_takes_from_totals(contract, a_first.contract, b, redemption_b);
    lemma_redemption_takes_from_totals(a_first.contract, contract, b, redemption_b);
    lemma_redemption_takes_from_totals(b_first.contract, contract, a, redemption_a);
}

/// A redemption that finds units to redeem succeeds only where it leaves
/// the platform solvent: the locked collateral covers what the long units
/// still issued are paid at the recorded ending price.
pub proof fn lemma_redemption_leaves_solvent(
    contract: ContractState,
    user: UserState,
    redemption: Redemption,
)
    requires
        redeemed(contract, user, redemption) is Ok,
        redeems_units(user, redemption),
    ensures
        ({
            let after = redeemed(contract, user, redemption)->Ok_0.contract;
            gains(after.global_current_issued_lcontract, after.long_scaled(), after.oracle_price_multiplier)
                <= after.global_current_locked_usdc as int
        }),
{
}

/// At or beyond the upper bound the short side is paid nothing. Where the
/// numbers of the redemption are values of their types and the platform
/// covers the long side's payout, the redemption succeeds: the position's
/// free collateral and the platform's locked collateral stay, the whole
/// stake goes to the shared escrow, and the short side is zeroed.
pub proof fn lemma_short_side_beyond_upper_bound(contract: ContractState, user: UserState)
    requires
        contract.is_settling,
        contract.band_defined(),
        contract.oracle_price_multiplier > 0,
        contract.ending_price as int >= upper_bound(
            contract.starting_price,
            contract.limiting_amplitude,
            contract.oracle_price_multiplier,
        ),
        user.issued_units() > 0,
        short_side_stake(contract, user) <= u64::MAX as int,
        user.contract_position_net as int + user.issued_units() <= i64::MAX as int,
        platform_check(
            contract.global_current_locked_usdc,
            contract.global_current_issued_lcontract,
            contract.long_scaled() as u64,
            contract.oracle_price_multiplier,
        ) is Ok,
    ensures
        admin_settle_outcome(contract, user) is Ok,
        ({
            let after = admin_settle_outcome(contract, user)->Ok_0;
            &&& after.movements.locked_to_free == 0
            &&& after.movements.locked_to_escrow as int == short_side_stake(contract, user)
            &&& after.movements.burn_short as int == user.issued_units()
            &&& after.user.usdc_free == user.usdc_free
            &&& after.user.scontract_sold_as_user == 0
            &&& after.user.lcontract_minted_as_mm == 0
            &&& after.user.issettled
            &&& after.contract == contract
        }),
{
    assert(contract.short_scaled() == 0);
    lemma_nothing_gained(user.scontract_sold_as_user, contract.oracle_price_multiplier);
    lemma_nothing_gained(user.lcontract_minted_as_mm, contract.oracle_price_multiplier);
}

/// At or below the lower bound the long side is paid nothing. Where the
/// platform has issued the units and the custody account holds them, the
/// redemption succeeds: the position's free collateral and the platform's
/// locked collateral stay, nothing leaves the escrow, the units are burnt and
/// taken off the issued units.
pub proof fn lemma_long_side_beyond_lower_bound(
    contract: ContractState,
    user: UserState,
    vault_long_units: u64,
)
    requires
        contract.is_settling,
        contract.band_defined(),
        contract.oracle_price_multiplier > 0,
        contract.ending_price as int <= lower_bound(
            contract.starting_price,
            contract.limiting_amplitude,
            contract.oracle_price_multiplier,
        ),
        user.lcontract_bought_as_user > 0,
        user.lcontract_bought_as_user <= contract.global_current_issued_lcontract,
        vault_long_units == user.lcontract_bought_as_user,
    ensures
        user_settle_long_outcome(contract, user, vault_long_units) is Ok,
        ({
            let after = user_settle_long_outcome(contract, user, vault_long_units)->Ok_0;
            &&& after.movements.escrow_to_free == 0
            &&& after.movements.burn_long == user.lcontract_bought_as_user
            &&& after.user.usdc_free == user.usdc_free
            &&& after.user.lcontract_bought_as_user == 0
            &&& after.user.issettled
            &&& after.contract.global_current_issued_lcontract as int
                == contract.global_current_issued_lcontract as int
                - user.lcontract_bought_as_user as int
            &&& after.contract.global_current_locked_usdc == contract.global_current_locked_usdc
        }),
{
    assert(contract.long_scaled() == 0);
    lemma_nothing_gained(user.lcontract_bought_as_user, contract.oracle_price_multiplier);
    lemma_nothing_gained(
        (contract.global_current_issued_lcontract - user.lcontract_bought_as_user) as u64,
        contract.oracle_price_multiplier,
    );
}

/// Units that gain nothing are paid nothing.
pub proof fn lemma_nothing_gained(units: u64, scale: u64)
    requires
        scale > 0,
    ensures
        units as int * 0 == 0,
        gains(units, 0, scale) == 0,
{
    let n = units as int;
    let s = scale as int;
    assert(n * 0 == 0) by (nonlinear_arith);
    assert(0int / s == 0) by (nonlinear_arith)
        requires
            s > 0,
    ;
}

/// Settlement is triggered once: before maturity it is refused, and after a
/// trigger that succeeded the contract has left the trading phase, so every
/// further trigger is refused, whatever the time and the reading.
pub proof fn lemma_trigger_only_once(
    contract: ContractState,
    now: i64,
    reading: OracleReading,
    later: i64,
    later_reading: OracleReading,
)
    ensures
        !contract.is_settling && now as int <= contract.ending_time as int
            ==> trigger_settle_mode_outcome(contract, now, reading) == Err::<
            ContractState,
            ErrorCode,
        >(ErrorCode::MaturityNotReached),
        contract.is_settling ==> trigger_settle_mode_outcome(contract, now, reading) == Err::<
            ContractState,
            ErrorCode,
        >(ErrorCode::AlreadySettling),
        trigger_settle_mode_outcome(contract, now, reading) is Ok ==> {
            let settling = trigger_settle_mode_outcome(contract, now, reading)->Ok_0;
            &&& contract.phase() == Phase::Trading
            &&& settling.phase() != Phase::Trading
            &&& trigger_settle_mode_outcome(settling, later, later_reading) == Err::<
                ContractState,
                ErrorCode,
            >(ErrorCode::AlreadySettling)
        },
{
}

} // verus!
