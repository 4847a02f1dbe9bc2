use vstd::prelude::*;
use crate::custody::SwapObservation;
use crate::errors::ErrorCode;
use crate::instructions::burn_lcontract_mm::burn_lcontract_mm_outcome;
use crate::instructions::close_long_user::close_long_user_outcome;
use crate::instructions::close_short_user::close_short_user_outcome;
use crate::instructions::deposit_collateral::deposit_collateral_outcome;
use crate::instructions::long_user::long_user_outcome;
use crate::instructions::mint_lcontract_mm::mint_lcontract_mm_outcome;
use crate::instructions::short_user::short_user_outcome;
use crate::instructions::withdraw_collateral::withdraw_collateral_outcome;
use crate::states::contract_state::ContractState;
use crate::states::contract_state::Phase;
use crate::states::user_state::UserState;

verus! {

/// The collateral locked over all positions.
pub open spec fn total_locked(users: Seq<UserState>) -> int
    decreases users.len(),
{
    if users.len() == 0 {
        0
    } else {
        total_locked(users.drop_last()) + users.last().locked_collateral()
    }
}

/// The units issued over all positions.
pub open spec fn total_issued(users: Seq<UserState>) -> int
    decreases users.len(),
{
    if users.len() == 0 {
        0
    } else {
        total_issued(users.drop_last()) + users.last().issued_units()
    }
}

/// The contract's running totals are the sums over its positions.
pub open spec fn aggregates_consistent(contract: ContractState, users: Seq<UserState>) -> bool {
    &&& contract.global_current_locked_usdc as int == total_locked(users)
    &&& contract.global_current_issued_lcontract as int == total_issued(users)
}

/// An operation that a participant can make while the contract trades.
pub enum Operation {
    Deposit { amount: u64 },
    Withdraw { amount: u64 },
    Mint { amount: u64 },
    Burn { amount: u64 },
    OpenLong { swap: SwapObservation },
    CloseLong { amount: u64, swap: SwapObservation },
    OpenShort { amount: u64, swap: SwapObservation },
    CloseShort { swap: SwapObservation },
}

/// One operation by one participant, named by their place among the
/// contract's positions.
pub struct Step {
    pub participant: usize,
    pub operation: Operation,
}

/// What an operation does to the contract and the position.
pub open spec fn operation_outcome(contract: ContractState, user: UserState, operation: Operation)
    -> Result<(ContractState, UserState), ErrorCode> {
    match operation {
        Operation::Deposit { amount } => match deposit_collateral_outcome(contract, user, amount) {
            Ok(o) => Ok((o.contract, o.user)),
            Err(e) => Err(e),
        },
        Operation::Withdraw { amount } => match withdraw_collateral_outcome(
            contract,
            user,
            amount,
        ) {
            Ok(o) => Ok((o.contract, o.user)),
            Err(e) => Err(e),
        },
        Operation::Mint { amount } => match mint_lcontract_mm_outcome(contract, user, amount) {
            Ok(o) => Ok((o.contract, o.user)),
            Err(e) => Err(e),
        },
        Operation::Burn { amount } => match burn_lcontract_mm_outcome(contract, user, amount) {
            Ok(o) => Ok((o.contract, o.user)),
            Err(e) => Err(e),
        },
        Operation::OpenLong { swap } => match long_user_outcome(user, swap) {
            Ok(after) => Ok((contract, after)),
            Err(e) => Err(e),
        },
        Operation::CloseLong { amount, swap } => match close_long_user_outcome(
            user,
            amount,
            swap,
        ) {
            Ok(after) => Ok((contract, after)),
            Err(e) => Err(e),
        },
        Operation::OpenShort { amount, swap } => match short_user_outcome(
            contract,
            user,
            amount,
            swap,
        ) {
            Ok(o) => Ok((o.contract, o.user)),
            Err(e) => Err(e),
        },
        Operation::CloseShort { swap } => match close_short_user_outcome(contract, user, swap) {
            Ok(o) => Ok((o.contract, o.user)),
            Err(e) => Err(e),
        },
    }
}

/// The contract and the position after an operation; both as they were
/// where the operation fails.
pub open spec fn after_operation(contract: ContractState, user: UserState, operation: Operation)
    -> (ContractState, UserState) {
    match operation_outcome(contract, user, operation) {
        Ok(after) => after,
        Err(_) => (contract, user),
    }
}

/// The operation locks or releases collateral, or issues or withdraws units.
pub open spec fn changes_exposure(operation: Operation) -> bool {
    match operation {
        Operation::Mint { .. } => true,
        Operation::Burn { .. } => true,
        Operation::OpenShort { .. } => true,
        Operation::CloseShort { .. } => true,
        _ => false,
    }
}

/// The contract and its positions after one step; a step by a participant
/// that the contract does not have changes nothing.
pub open spec fn after_step(contract: ContractState, users: Seq<UserState>, step: Step) -> (
    ContractState,
    Seq<UserState>,
) {
    if step.participant < users.len() {
        let (c, u) = after_operation(contract, users[step.participant as int], step.operation);
        (c, users.update(step.participant as int, u))
    } else {
        (contract, users)
    }
}

/// The contract and its positions after a sequence of steps, first to last.
pub open spec fn after_steps(contract: ContractState, users: Seq<UserState>, steps: Seq<Step>) -> (
    ContractState,
    Seq<UserState>,
)
    decreases steps.len(),
{
    if steps.len() == 0 {
        (contract, users)
    } else {
        let (c, u) = after_steps(contract, users, steps.drop_last());
        after_step(c, u, steps.last())
    }
}

/// An operation changes the contract's running totals by exactly what it
/// changes the position's locked collateral and issued units.
pub open spec fn mirrored(
    contract_before: ContractState,
    user_before: UserState,
    contract_after: ContractState,
    user_after: UserState,
) -> bool {
    &&& contract_after.global_current_locked_usdc as int
        - contract_before.global_current_locked_usdc as int == user_after.locked_collateral()
        - user_before.locked_collateral()
    &&& contract_after.global_current_issued_lcontract as int
        - contract_before.global_current_issued_lcontract as int == user_after.issued_units()
        - user_before.issued_units()
}

/// Recomputes the sums over the positions and compares them with the
/// contract's running totals.
pub fn reconcile(contract: &ContractState, users: &Vec<UserState>) -> (consistent: bool)
    ensures
        consistent == aggregates_consistent(*contract, users@),
{
    let mut locked_as_user: u128 = 0;
    let mut locked_as_mm: u128 = 0;
    let mut sold: u128 = 0;
    let mut minted: u128 = 0;
    let mut i: usize = 0;
    while i < users.len()
        invariant
            i <= users.len(),
            locked_as_user as int + locked_as_mm as int == total_locked(users@.take(i as int)),
            sold as int + minted as int == total_issued(users@.take(i as int)),
            locked_as_user as int <= i as int * u64::MAX as int,
            locked_as_mm as int <= i as int * u64::MAX as int,
            sold as int <= i as int * u64::MAX as int,
            minted as int <= i as int * u64::MAX as int,
        decreases users.len() - i,
    {
        proof {
            assert(users@.take(i as int + 1).drop_last() =~= users@.take(i as int));
            assert((i as int + 1) * u64::MAX as int <= usize::MAX as int * u64::MAX as int)
                by (nonlinear_arith)
                requires
                    i as int + 1 <= usize::MAX as int,
            ;
            assert((i as int + 1) * u64::MAX as int == i as int * u64::MAX as int + u64::MAX as int)
                by (nonlinear_arith);
            assert(usize::MAX as int * u64::MAX as int <= u128::MAX as int) by (nonlinear_arith)
                requires
                    usize::MAX as int <= u64::MAX as int,
            ;
        }
        let user = &users[i];
        locked_as_user = locked_as_user + user.usdc_collateral_locked_as_user as u128;
        locked_as_mm = locked_as_mm + user.usdc_collateral_locked_as_mm as u128;
        sold = sold + user.scontract_sold_as_user as u128;
        minted = minted + user.lcontract_minted_as_mm as u128;
        i += 1;
    }
    proof {
        assert(users@.take(users.len() as int) =~= users@);
    }
    let global_locked: u128 = contract.global_current_locked_usdc as u128;
    let global_issued: u128 = contract.global_current_issued_lcontract as u128;
    locked_as_user <= global_locked && locked_as_mm == global_locked - locked_as_user && sold
        <= global_issued && minted == global_issued - sold
}

/// Replacing one position changes each sum by what that position changed.
pub proof fn lemma_totals_after_update(users: Seq<UserState>, i: int, user: UserState)
    requires
        0 <= i < users.len(),
    ensures
        total_locked(users.update(i, user)) == total_locked(users) - users[i].locked_collateral()
            + user.locked_collateral(),
        total_issued(users.update(i, user)) == total_issued(users) - users[i].issued_units()
            + user.issued_units(),
    decreases users.len(),
{
    let updated = users.update(i, user);
    if i == users.len() - 1 {
        assert(updated.drop_last() =~= users.drop_last());
    } else {
        assert(updated.drop_last() =~= users.drop_last().update(i, user));
        lemma_totals_after_update(users.drop_last(), i, user);
    }
}

/// Every operation, failed or not, mirrors the position's change in the
/// contract's running totals.
pub proof fn lemma_operation_mirrored(
    contract: ContractState,
    user: UserState,
    operation: Operation,
)
    ensures
        mirrored(
            contract,
            user,
            after_operation(contract, user, operation).0,
            after_operation(contract, user, operation).1,
        ),
{
}

/// An operation that changes the exposure succeeds only where it leaves
/// position and platform solvent: the position's locked collateral covers
/// its issued units, and the platform's locked collateral covers all issued
/// units, at the full amplitude each.
pub proof fn lemma_operation_leaves_solvent(
    contract: ContractState,
    user: UserState,
    operation: Operation,
)
    requires
        changes_exposure(operation),
        operation_outcome(contract, user, operation) is Ok,
    ensures
        ({
            let (c, u) = after_operation(contract, user, operation);
            &&& u.issued_units() * (c.limiting_amplitude as int) <= u.locked_collateral()
            &&& c.global_current_issued_lcontract as int * c.limiting_amplitude as int
                <= c.global_current_locked_usdc as int
        }),
{
    let (c, u) = after_operation(contract, user, operation);
    let needed = c.global_current_issued_lcontract as int * c.limiting_amplitude as int;
    assert(needed / 1 == needed);
}

/// No operation of the trading phase touches the contract's terms: it stays
/// settling or not, with its prices, amplitude and scale. A contract that
/// trades is still trading afterwards; it leaves that phase only when
/// settlement is triggered.
pub proof fn lemma_operation_keeps_terms(
    contract: ContractState,
    user: UserState,
    operation: Operation,
)
    ensures
        after_operation(contract, user, operation).0.is_settling == contract.is_settling,
        after_operation(contract, user, operation).0.starting_price == contract.starting_price,
        after_operation(contract, user, operation).0.ending_price == contract.ending_price,
        after_operation(contract, user, operation).0.limiting_amplitude
            == contract.limiting_amplitude,
        after_operation(contract, user, operation).0.oracle_price_multiplier
            == contract.oracle_price_multiplier,
        contract.phase() == Phase::Trading ==> after_operation(
            contract,
            user,
            operation,
        ).0.phase() == Phase::Trading,
{
}

/// Aggregate consistency: where the contract's running totals are the sums
/// over its positions, they still are after any sequence of operations by
/// any of its participants.
pub proof fn lemma_aggregates_stay_consistent(
    contract: ContractState,
    users: Seq<UserState>,
    steps: Seq<Step>,
)
    requires
        aggregates_consistent(contract, users),
    ensures
        aggregates_consistent(
            after_steps(contract, users, steps).0,
            after_steps(contract, users, steps).1,
        ),
        after_steps(contract, users, steps).1.len() == users.len(),
    decreases steps.len(),
{
    if steps.len() > 0 {
        lemma_aggregates_stay_consistent(contract, users, steps.drop_last());
        let (c, u) = after_steps(contract, users, steps.drop_last());
        let step = steps.last();
        if step.participant < u.len() {
            let i = step.participant as int;
            lemma_operation_mirrored(c, u[i], step.operation);
            lemma_totals_after_update(u, i, after_operation(c, u[i], step.operation).1);
        }
    }
}

} // verus!
