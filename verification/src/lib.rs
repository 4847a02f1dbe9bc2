//! Settlement and collateralisation engine for band-limited synthetic
//! contracts: payout maths, position ledger, solvency guards and the
//! settlement state machine.
//!
//! The engine keeps the books. Custody of value, the price feeds and the
//! swap venue stay outside: an operation is handed what was observed there
//! and returns the movements of value that its caller has to carry out.

pub mod custody;
pub mod errors;
pub mod guard;
pub mod instructions;
pub mod ledger;
pub mod oracle;
pub mod payout;
pub mod settlement;
pub mod states;
pub mod types;
pub mod utils;

use vstd::prelude::*;
use crate::custody::Movements;
use crate::custody::SwapObservation;
use crate::errors::ErrorCode;
use crate::instructions::admin::admin_settle::admin_settle_outcome;
use crate::instructions::admin::initialize_contract::initialize_contract_outcome;
use crate::instructions::admin::initialize_contract::ContractAccounts;
use crate::instructions::applied;
use crate::instructions::applied_to_contract;
use crate::instructions::burn_lcontract_mm::burn_lcontract_mm_outcome;
use crate::instructions::close_long_user::close_long_user_outcome;
use crate::instructions::close_short_user::close_short_user_outcome;
use crate::instructions::deposit_collateral::deposit_collateral_outcome;
use crate::instructions::long_user::long_user_outcome;
use crate::instructions::mint_lcontract_mm::mint_lcontract_mm_outcome;
use crate::instructions::mm_settle_long::mm_settle_long_outcome;
use crate::instructions::short_user::short_user_outcome;
use crate::instructions::trigger_settle_mode::settling_at;
use crate::instructions::trigger_settle_mode::trigger_settle_mode_outcome;
use crate::instructions::user_settle_long::user_settle_long_outcome;
use crate::instructions::withdraw_collateral::withdraw_collateral_outcome;
use crate::oracle::OracleReading;
use crate::states::contract_state::ContractState;
use crate::states::global_state::GlobalState;
use crate::states::user_state::UserState;
use crate::types::Address;
use crate::utils::deposit_phase_check;
use crate::utils::guarded;
use crate::utils::trading_phase_check;
use crate::utils::unrestricted_deposit_phase;
use crate::utils::unrestricted_trading_phase;

verus! {

/// Creates the platform-wide record.
pub fn create_global_state(global_state: &mut GlobalState, bump: u8, authority: Address)
    ensures
        *final(global_state) == (GlobalState { bump, authority, paused: false, total_tvl_usdc: 0 }),
{
    crate::instructions::admin::create_global_state::handle(global_state, bump, authority)
}

/// Creates a contract.
pub fn initialize_contract(
    contract: &mut ContractState,
    contract_name: String,
    bump: u8,
    ending_time: u64,
    limiting_amplitude: u64,
    feed_type: u8,
    accounts: ContractAccounts,
    now: i64,
    reading: &OracleReading,
) -> (r: Result<(), ErrorCode>)
    ensures
        match initialize_contract_outcome(
            *old(contract),
            contract_name,
            bump,
            ending_time,
            limiting_amplitude,
            feed_type,
            accounts,
            now,
            *reading,
        ) {
            Ok(after) => r == Ok::<(), ErrorCode>(()) && *final(contract) == after,
            Err(e) => r == Err::<(), ErrorCode>(e) && *final(contract) == *old(contract),
        },
{
    crate::instructions::admin::initialize_contract::handle(
        contract,
        contract_name,
        bump,
        ending_time,
        limiting_amplitude,
        feed_type,
        accounts,
        now,
        reading,
    )
}

/// Sets up a participant's ledger, while the contract takes trades.
pub fn initialize_user(
    contract: &ContractState,
    user: &mut UserState,
    now: i64,
    bump: u8,
    authority: Address,
    contract_account: Address,
) -> (r: Result<(), ErrorCode>)
    ensures
        r == trading_phase_check(*contract, now),
        r is Err ==> *final(user) == *old(user),
        r is Ok ==> *final(user) == (UserState {
            bump,
            usdc_deposited: 0,
            usdc_withdrawn: 0,
            ishalted: false,
            issettled: false,
            authority,
            contract_account,
            usdc_free: 0,
            ..*old(user)
        }),
{
    match unrestricted_trading_phase(contract, now) {
        Err(e) => Err(e),
        Ok(_) => {
            crate::instructions::init_user_account::handle(user, bump, authority, contract_account);
            Ok(())
        },
    }
}

/// Deposits collateral, while the contract takes deposits.
pub fn deposit_collateral(
    contract: &mut ContractState,
    user: &mut UserState,
    now: i64,
    amount: u64,
) -> (r: Result<Movements, ErrorCode>)
    ensures
        applied(
            *old(contract),
            *old(user),
            *final(contract),
            *final(user),
            r,
            guarded(
                deposit_phase_check(*old(contract), now),
                deposit_collateral_outcome(*old(contract), *old(user), amount),
            ),
        ),
{
    match unrestricted_deposit_phase(contract, now) {
        Err(e) => Err(e),
        Ok(_) => crate::instructions::deposit_collateral::handle(contract, user, amount),
    }
}

/// Withdraws collateral, in any phase.
pub fn withdraw_collateral(contract: &mut ContractState, user: &mut UserState, amount: u64) -> (r:
    Result<Movements, ErrorCode>)
    ensures
        applied(
            *old(contract),
            *old(user),
            *final(contract),
            *final(user),
            r,
            withdraw_collateral_outcome(*old(contract), *old(user), amount),
        ),
{
    crate::instructions::withdraw_collateral::handle(contract, user, amount)
}

/// Mints long units as market maker, while the contract takes trades.
pub fn mint_l_contract_mm(
    contract: &mut ContractState,
    user: &mut UserState,
    now: i64,
    amount: u64,
) -> (r: Result<Movements, ErrorCode>)
    ensures
        applied(
            *old(contract),
            *old(user),
            *final(contract),
            *final(user),
            r,
            guarded(
                trading_phase_check(*old(contract), now),
                mint_lcontract_mm_outcome(*old(contract), *old(user), amount),
            ),
        ),
{
    match unrestricted_trading_phase(contract, now) {
        Err(e) => Err(e),
        Ok(_) => crate::instructions::mint_lcontract_mm::handle(contract, user, amount),
    }
}

/// Burns long units as market maker, while the contract takes trades.
pub fn burn_l_contract_mm(
    contract: &mut ContractState,
    user: &mut UserState,
    now: i64,
    amount: u64,
) -> (r: Result<Movements, ErrorCode>)
    ensures
        applied(
            *old(contract),
            *old(user),
            *final(contract),
            *final(user),
            r,
            guarded(
                trading_phase_check(*old(contract), now),
                burn_lcontract_mm_outcome(*old(contract), *old(user), amount),
            ),
        ),
{
    match unrestricted_trading_phase(contract, now) {
        Err(e) => Err(e),
        Ok(_) => crate::instructions::burn_lcontract_mm::handle(contract, user, amount),
    }
}

/// Opens a long position, while the contract takes trades.
pub fn long_user(contract: &ContractState, user: &mut UserState, now: i64, swap: SwapObservation)
    -> (r: Result<(), ErrorCode>)
    ensures
        match guarded(trading_phase_check(*contract, now), long_user_outcome(*old(user), swap)) {
            Ok(after) => r == Ok::<(), ErrorCode>(()) && *final(user) == after,
            Err(e) => r == Err::<(), ErrorCode>(e) && *final(user) == *old(user),
        },
{
    match unrestricted_trading_phase(contract, now) {
        Err(e) => Err(e),
        Ok(_) => crate::instructions::long_user::handle(user, swap),
    }
}

/// Closes a long position, while the contract takes trades.
pub fn close_long_user(
    contract: &ContractState,
    user: &mut UserState,
    now: i64,
    amount: u64,
    swap: SwapObservation,
) -> (r: Result<(), ErrorCode>)
    ensures
        match guarded(
            trading_phase_check(*contract, now),
            close_long_user_outcome(*old(user), amount, swap),
        ) {
            Ok(after) => r == Ok::<(), ErrorCode>(()) && *final(user) == after,
            Err(e) => r == Err::<(), ErrorCode>(e) && *final(user) == *old(user),
        },
{
    match unrestricted_trading_phase(contract, now) {
        Err(e) => Err(e),
        Ok(_) => crate::instructions::close_long_user::handle(user, amount, swap),
    }
}

/// Opens a short position, while the contract takes trades.
pub fn short_user(
    contract: &mut ContractState,
    user: &mut UserState,
    now: i64,
    amount: u64,
    swap: SwapObservation,
) -> (r: Result<Movements, ErrorCode>)
    ensures
        applied(
            *old(contract),
            *old(user),
            *final(contract),
            *final(user),
            r,
            guarded(
                trading_phase_check(*old(contract), now),
                short_user_outcome(*old(contract), *old(user), amount, swap),
            ),
        ),
{
    match unrestricted_trading_phase(contract, now) {
        Err(e) => Err(e),
        Ok(_) => crate::instructions::short_user::handle(contract, user, amount, swap),
    }
}

/// Closes a short position, while the contract takes trades.
pub fn close_short_user(
    contract: &mut ContractState,
    user: &mut UserState,
    now: i64,
    swap: SwapObservation,
) -> (r: Result<Movements, ErrorCode>)
    ensures
        applied(
            *old(contract),
            *old(user),
            *final(contract),
            *final(user),
            r,
            guarded(
                trading_phase_check(*old(contract), now),
                close_short_user_outcome(*old(contract), *old(user), swap),
            ),
        ),
{
    match unrestricted_trading_phase(contract, now) {
        Err(e) => Err(e),
        Ok(_) => crate::instructions::close_short_user::handle(contract, user, swap),
    }
}

/// Triggers settlement once maturity has passed.
pub fn trigger_settle_mode(contract: &mut ContractState, now: i64, reading: &OracleReading) -> (r:
    Result<(), ErrorCode>)
    ensures
        match trigger_settle_mode_outcome(*old(contract), now, *reading) {
            Ok(after) => r == Ok::<(), ErrorCode>(()) && *final(contract) == after,
            Err(e) => r == Err::<(), ErrorCode>(e) && *final(contract) == *old(contract),
        },
{
    crate::instructions::trigger_settle_mode::handle(contract, now, reading)
}

/// Redeems the short side of a position.
pub fn admin_settle(contract: &mut ContractState, user: &mut UserState) -> (r: Result<
    Movements,
    ErrorCode,
>)
    ensures
        applied(
            *old(contract),
            *old(user),
            *final(contract),
            *final(user),
            r,
            admin_settle_outcome(*old(contract), *old(user)),
        ),
{
    crate::instructions::admin::admin_settle::handle(contract, user)
}

/// Redeems the long units of a position.
pub fn user_settle_long(contract: &mut ContractState, user: &mut UserState, vault_long_units: u64)
    -> (r: Result<Movements, ErrorCode>)
    ensures
        applied(
            *old(contract),
            *old(user),
            *final(contract),
            *final(user),
            r,
            user_settle_long_outcome(*old(contract), *old(user), vault_long_units),
        ),
{
    crate::instructions::user_settle_long::handle(contract, user, vault_long_units)
}

/// Redeems long units that a market maker holds.
pub fn mm_settle_long(contract: &mut ContractState, amount: u64) -> (r: Result<
    Movements,
    ErrorCode,
>)
    ensures
        applied_to_contract(
            *old(contract),
            *final(contract),
            r,
            mm_settle_long_outcome(*old(contract), amount),
        ),
{
    crate::instructions::mm_settle_long::handle(contract, amount)
}

/// Replaces the contract's amplitude.
pub fn admin_sets_amplitude(contract: &mut ContractState, amplitude_test: u64)
    ensures
        *final(contract) == (ContractState {
            limiting_amplitude: amplitude_test,
            ..*old(contract)
        }),
{
    crate::instructions::admin::admin_sets_amplitude::handle(contract, amplitude_test)
}

/// Triggers settlement at a price that the administrator names.
pub fn admin_triggers_settle_mode(contract: &mut ContractState, test_settlement_price: u64) -> (r:
    Result<(), ErrorCode>)
    ensures
        old(contract).is_settling ==> r == Err::<(), ErrorCode>(ErrorCode::AlreadySettling)
            && *final(contract) == *old(contract),
        !old(contract).is_settling ==> r == Ok::<(), ErrorCode>(()) && *final(contract)
            == settling_at(*old(contract), test_settlement_price),
{
    crate::instructions::admin::admin_triggers_settle_mode::handle(
        contract,
        test_settlement_price,
    )
}

} // verus!
