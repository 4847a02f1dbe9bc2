//! What each instruction does to the books. The functions here do not look
//! at the clock: whether the contract still takes deposits or trades is
//! checked by the functions of the crate's root, which call these.

pub mod admin;
pub mod burn_lcontract_mm;
pub mod close_long_user;
pub mod close_short_user;
pub mod deposit_collateral;
pub mod init_user_account;
pub mod long_user;
pub mod mint_lcontract_mm;
pub mod short_user;
pub mod trigger_settle_mode;
pub mod mm_settle_long;
pub mod user_settle_long;
pub mod withdraw_collateral;

use vstd::prelude::*;
use crate::custody::Movements;
use crate::errors::ErrorCode;
use crate::states::contract_state::ContractState;
use crate::states::user_state::UserState;

verus! {

/// What an operation on one position leaves behind when it succeeds.
pub struct Outcome {
    pub contract: ContractState,
    pub user: UserState,
    pub movements: Movements,
}

/// An operation did what `expected` says: on success both records are those
/// of the outcome and its movements are returned; on failure the error is
/// returned and both records are what they were.
pub open spec fn applied(
    contract_before: ContractState,
    user_before: UserState,
    contract_after: ContractState,
    user_after: UserState,
    result: Result<Movements, ErrorCode>,
    expected: Result<Outcome, ErrorCode>,
) -> bool {
    match expected {
        Ok(outcome) => {
            &&& result == Ok::<Movements, ErrorCode>(outcome.movements)
            &&& contract_after == outcome.contract
            &&& user_after == outcome.user
        },
        Err(e) => {
            &&& result == Err::<Movements, ErrorCode>(e)
            &&& contract_after == contract_before
            &&& user_after == user_before
        },
    }
}

/// What an operation on the contract alone leaves behind when it succeeds.
pub struct ContractOutcome {
    pub contract: ContractState,
    pub movements: Movements,
}

/// An operation on the contract alone did what `expected` says: on failure
/// the contract is what it was.
pub open spec fn applied_to_contract(
    contract_before: ContractState,
    contract_after: ContractState,
    result: Result<Movements, ErrorCode>,
    expected: Result<ContractOutcome, ErrorCode>,
) -> bool {
    match expected {
        Ok(outcome) => {
            &&& result == Ok::<Movements, ErrorCode>(outcome.movements)
            &&& contract_after == outcome.contract
        },
        Err(e) => {
            &&& result == Err::<Movements, ErrorCode>(e)
            &&& contract_after == contract_before
        },
    }
}

} // verus!
