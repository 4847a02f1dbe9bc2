use vstd::prelude::*;
use crate::errors::ErrorCode;
use crate::oracle::read_price;
use crate::oracle::reading_outcome;
use crate::oracle::OracleReading;
use crate::states::contract_state::ContractState;
use crate::types::Address;
use crate::types::FeedType;

verus! {

/// The accounts that a contract is bound to when it is created.
#[derive(Clone, Copy, Debug, Default, PartialEq, Eq)]
pub struct ContractAccounts {
    pub authority: Address,
    pub escrow_vault_collateral: Address,
    pub collateral_mint: Address,
    pub lcontract_mint: Address,
    pub scontract_mint: Address,
}

/// What creating a contract at `now` with `reading` does.
///
/// A feed tag that names no known kind, or a reading of another kind, gives
/// `InvalidFeedType`. The reading must be fresh. Its price in the common
/// form becomes the starting price and its scale the contract's price
/// multiplier; `Overflow` where it has no common form or `now` is negative.
/// The contract starts trading, unhalted, with no ending price, no value and
/// no aggregates, bound to the reading's feed.
pub open spec fn initialize_contract_outcome(
    contract: ContractState,
    contract_name: String,
    bump: u8,
    ending_time: u64,
    limiting_amplitude: u64,
    feed_type: u8,
    accounts: ContractAccounts,
    now: i64,
    reading: OracleReading,
) -> Result<ContractState, ErrorCode> {
    if feed_type >= FeedType::Unknown.tag() {
        Err(ErrorCode::InvalidFeedType)
    } else {
        match reading_outcome(reading, FeedType::of_tag(feed_type), now) {
            Err(e) => Err(e),
            Ok(price) => if now < 0 {
                Err(ErrorCode::Overflow)
            } else {
                Ok(
                    ContractState {
                        name: contract_name,
                        authority: accounts.authority,
                        bump,
                        escrow_vault_collateral: accounts.escrow_vault_collateral,
                        is_halted: false,
                        is_halted_deposit: false,
                        is_halted_trading: false,
                        is_settling: false,
                        collateral_mint: accounts.collateral_mint,
                        lcontract_mint: accounts.lcontract_mint,
                        scontract_mint: accounts.scontract_mint,
                        oracle_feed_type: FeedType::of_tag(feed_type),
                        oracle_feed_key: reading.feed(),
                        oracle_price_multiplier: price.scale,
                        starting_price: price.price,
                        limiting_amplitude,
                        starting_time: now as u64,
                        ending_price: 0,
                        ending_time,
                        cap_product: 0,
                        current_tvl_usdc: 0,
                        current_tvl_underlying: 0,
                        global_current_locked_usdc: 0,
                        global_current_issued_lcontract: 0,
                        ..contract
                    },
                )
            },
        }
    }
}

/// Creates a contract: binds it to its accounts and feed and records the
/// starting price.
pub fn handle(
    contract: &mut ContractState,
    contract_name: String,
    bump: u8,
    ending_time: u64,
    limiting_amplitude: u64,
    feed_type: u8,
    accounts: ContractAccounts,
    now: i64,
    reading: &OracleReading,
) -> (r: Result<(), ErrorCode>)
    ensures
        match initialize_contract_outcome(
            *old(contract),
            contract_name,
            bump,
            ending_time,
            limiting_amplitude,
            feed_type,
            accounts,
            now,
            *reading,
        ) {
            Ok(after) => r == Ok::<(), ErrorCode>(()) && *final(contract) == after,
            Err(e) => r == Err::<(), ErrorCode>(e) && *final(contract) == *old(contract),
        },
{
    if feed_type >= FeedType::Unknown.as_u8() {
        return Err(ErrorCode::InvalidFeedType);
    }
    let kind = FeedType::from_u8(feed_type);
    let price = match read_price(reading, kind, now) {
        Ok(p) => p,
        Err(e) => { return Err(e); },
    };
    if now < 0 {
        return Err(ErrorCode::Overflow);
    }
    contract.name = contract_name;
    contract.authority = accounts.authority;
    contract.bump = bump;
    contract.escrow_vault_collateral = accounts.escrow_vault_collateral;
    contract.is_halted = false;
    contract.is_halted_deposit = false;
    contract.is_halted_trading = false;
    contract.is_settling = false;
    contract.collateral_mint = accounts.collateral_mint;
    contract.lcontract_mint = accounts.lcontract_mint;
    contract.scontract_mint = accounts.scontract_mint;
    contract.oracle_feed_type = kind;
    contract.oracle_feed_key = reading.feed();
    contract.oracle_price_multiplier = price.scale;
    contract.starting_price = price.price;
    contract.limiting_amplitude = limiting_amplitude;
    contract.starting_time = now as u64;
    contract.ending_price = 0;
    contract.ending_time = ending_time;
    contract.cap_product = 0;
    contract.current_tvl_usdc = 0;
    contract.current_tvl_underlying = 0;
    contract.global_current_locked_usdc = 0;
    contract.global_current_issued_lcontract = 0;
    Ok(())
}

} // verus!
