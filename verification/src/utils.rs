use vstd::prelude::*;
use crate::errors::ErrorCode;
use crate::states::contract_state::ContractState;

verus! {

/// Whether the contract takes deposits at `now`: it is not halted, not
/// halted for deposits, not at or past its maturity and not settling. The
/// first of these that fails, in this order, names the error.
pub open spec fn deposit_phase_check(contract: ContractState, now: i64) -> Result<(), ErrorCode> {
    if contract.is_halted {
        Err(ErrorCode::ContractHalted)
    } else if contract.is_halted_deposit {
        Err(ErrorCode::ContractDepositHalted)
    } else if now as int >= contract.ending_time as int {
        Err(ErrorCode::ContractEnded)
    } else if contract.is_settling {
        Err(ErrorCode::IsSettling)
    } else {
        Ok(())
    }
}

/// Whether the contract takes trades at `now`: it is not halted, not halted
/// for trading, not at or past its maturity and not settling. The first of
/// these that fails, in this order, names the error. A halt of deposits
/// alone does not stop trades.
pub open spec fn trading_phase_check(contract: ContractState, now: i64) -> Result<(), ErrorCode> {
    if contract.is_halted {
        Err(ErrorCode::ContractHalted)
    } else if contract.is_halted_trading {
        Err(ErrorCode::ContractTradingHalted)
    } else if now as int >= contract.ending_time as int {
        Err(ErrorCode::ContractEnded)
    } else if contract.is_settling {
        Err(ErrorCode::IsSettling)
    } else {
        Ok(())
    }
}

/// Whether the contract is settling; `MaturityNotReached` where it is not.
pub open spec fn settling_check(contract: ContractState) -> Result<(), ErrorCode> {
    if !contract.is_settling {
        Err(ErrorCode::MaturityNotReached)
    } else {
        Ok(())
    }
}

/// A guarded operation: the guard's error where it fails, the operation's
/// own result where it passes.
pub open spec fn guarded<T>(check: Result<(), ErrorCode>, outcome: Result<T, ErrorCode>) -> Result<
    T,
    ErrorCode,
> {
    match check {
        Err(e) => Err(e),
        Ok(_) => outcome,
    }
}

/// The two halts are independent: a halt of deposits alone leaves the
/// trading guard as it is, and a halt of trades alone leaves the deposit
/// guard as it is.
pub proof fn lemma_halts_are_independent(contract: ContractState, now: i64)
    ensures
        trading_phase_check(ContractState { is_halted_deposit: true, ..contract }, now)
            == trading_phase_check(ContractState { is_halted_deposit: false, ..contract }, now),
        deposit_phase_check(ContractState { is_halted_trading: true, ..contract }, now)
            == deposit_phase_check(ContractState { is_halted_trading: false, ..contract }, now),
{
}

fn reached(now: i64, time: u64) -> (r: bool)
    ensures
        r == (now as int >= time as int),
{
    now >= 0 && now as u64 >= time
}

/// Checks that the contract still takes deposits.
pub fn unrestricted_deposit_phase(contract_state: &ContractState, now: i64) -> (r: Result<
    (),
    ErrorCode,
>)
    ensures
        r == deposit_phase_check(*contract_state, now),
{
    if contract_state.is_halted {
        return Err(ErrorCode::ContractHalted);
    }
    if contract_state.is_halted_deposit {
        return Err(ErrorCode::ContractDepositHalted);
    }
    if reached(now, contract_state.ending_time) {
        return Err(ErrorCode::ContractEnded);
    }
    if contract_state.is_settling {
        return Err(ErrorCode::IsSettling);
    }
    Ok(())
}

/// Checks that the contract still takes trades.
pub fn unrestricted_trading_phase(contract_state: &ContractState, now: i64) -> (r: Result<
    (),
    ErrorCode,
>)
    ensures
        r == trading_phase_check(*contract_state, now),
{
    if contract_state.is_halted {
        return Err(ErrorCode::ContractHalted);
    }
    if contract_state.is_halted_trading {
        return Err(ErrorCode::ContractTradingHalted);
    }
    if reached(now, contract_state.ending_time) {
        return Err(ErrorCode::ContractEnded);
    }
    if contract_state.is_settling {
        return Err(ErrorCode::IsSettling);
    }
    Ok(())
}

/// Checks that the contract is settling.
pub fn settling_mode(contract_state: &ContractState) -> (r: Result<(), ErrorCode>)
    ensures
        r == settling_check(*contract_state),
{
    if !contract_state.is_settling {
        return Err(ErrorCode::MaturityNotReached);
    }
    Ok(())
}

} // verus!
