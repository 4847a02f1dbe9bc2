use vstd::prelude::*;
use crate::errors::ErrorCode;
use crate::oracle::read_price;
use crate::oracle::reading_outcome;
use crate::oracle::rescale;
use crate::oracle::rescaled;
use crate::oracle::OracleReading;
use crate::states::contract_state::ContractState;

verus! {

/// The contract once settlement is triggered at `ending_price`: the price
/// is recorded, the contract settles, and deposits and trades are halted.
pub open spec fn settling_at(contract: ContractState, ending_price: u64) -> ContractState {
    ContractState {
        ending_price,
        is_settling: true,
        is_halted_deposit: true,
        is_halted_trading: true,
        ..contract
    }
}

/// Whether settlement can be triggered at `now`: a contract that is settling
/// already gives `AlreadySettling`, one whose maturity `now` has not passed
/// gives `MaturityNotReached`.
pub open spec fn settlement_due(contract: ContractState, now: i64) -> Result<(), ErrorCode> {
    if contract.is_settling {
        Err(ErrorCode::AlreadySettling)
    } else if now as int <= contract.ending_time as int {
        Err(ErrorCode::MaturityNotReached)
    } else {
        Ok(())
    }
}

/// Checks that settlement can be triggered at `now`. This is what is known
/// before any feed is read.
pub fn check_due(contract: &ContractState, now: i64) -> (r: Result<(), ErrorCode>)
    ensures
        r == settlement_due(*contract, now),
{
    if contract.is_settling {
        return Err(ErrorCode::AlreadySettling);
    }
    if now < 0 || now as u64 <= contract.ending_time {
        return Err(ErrorCode::MaturityNotReached);
    }
    Ok(())
}

/// What triggering settlement at `now` with `reading` does.
///
/// A contract that is settling already gives `AlreadySettling`; one whose
/// maturity `now` has not passed gives `MaturityNotReached`. The reading
/// must be of the contract's feed kind (`InvalidFeedType`), come from the
/// contract's own feed (`InvalidOraclefeed`) and be fresh. Its price, brought
/// to the contract's scale, becomes the ending price; `Overflow` where it has
/// no value there.
pub open spec fn trigger_settle_mode_outcome(
    contract: ContractState,
    now: i64,
    reading: OracleReading,
) -> Result<ContractState, ErrorCode> {
    if settlement_due(contract, now) is Err {
        Err(settlement_due(contract, now)->Err_0)
    } else if reading.kind() != contract.oracle_feed_type {
        Err(ErrorCode::InvalidFeedType)
    } else if reading.feed() != contract.oracle_feed_key {
        Err(ErrorCode::InvalidOraclefeed)
    } else {
        match reading_outcome(reading, contract.oracle_feed_type, now) {
            Err(e) => Err(e),
            Ok(price) => match rescaled(price, contract.oracle_price_multiplier) {
                None => Err(ErrorCode::Overflow),
                Some(ending_price) => Ok(settling_at(contract, ending_price)),
            },
        }
    }
}

/// Triggers settlement: fixes the ending price once maturity has passed.
pub fn handle(contract: &mut ContractState, now: i64, reading: &OracleReading) -> (r: Result<
    (),
    ErrorCode,
>)
    ensures
        match trigger_settle_mode_outcome(*old(contract), now, *reading) {
            Ok(after) => r == Ok::<(), ErrorCode>(()) && *final(contract) == after,
            Err(e) => r == Err::<(), ErrorCode>(e) && *final(contract) == *old(contract),
        },
{
    match check_due(contract, now) {
        Err(e) => { return Err(e); },
        Ok(_) => {},
    }
    if reading.kind() != contract.oracle_feed_type {
        return Err(ErrorCode::InvalidFeedType);
    }
    if !reading.feed().same_as(&contract.oracle_feed_key) {
        return Err(ErrorCode::InvalidOraclefeed);
    }
    let price = match read_price(reading, contract.oracle_feed_type, now) {
        Ok(p) => p,
        Err(e) => { return Err(e); },
    };
    let ending_price = match rescale(price, contract.oracle_price_multiplier) {
        Ok(v) => v,
        Err(e) => { return Err(e); },
    };
    contract.ending_price = ending_price;
    contract.is_settling = true;
    contract.is_halted_deposit = true;
    contract.is_halted_trading = true;
    Ok(())
}

} // verus!
