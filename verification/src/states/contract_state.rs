use vstd::prelude::*;
use crate::payout::band_defined;
use crate::payout::long_scaled;
use crate::payout::short_scaled;
use crate::types::Address;
use crate::types::FeedType;

verus! {

/// Where a contract stands in its life. A contract only ever moves forward
/// through these.
#[derive(Clone, Copy, Debug, PartialEq, Eq, Structural)]
pub enum Phase {
    /// Positions can be opened and closed.
    Trading,
    /// The ending price is fixed and positions are redeemed one by one.
    Settling,
    /// The ending price is fixed and no issued unit is left to redeem.
    Closed,
}

/// One traded instrument for one epoch.
#[derive(Debug, Default, PartialEq, Eq)]
pub struct ContractState {
    pub name: String,
    pub bump: u8,
    pub authority: Address,
    pub escrow_vault_collateral: Address,
    pub is_halted: bool,
    pub is_halted_deposit: bool,
    pub is_halted_trading: bool,
    pub is_settling: bool,
    pub collateral_mint: Address,
    pub lcontract_mint: Address,
    pub scontract_mint: Address,
    /// Which oracle adapter the contract reads.
    pub oracle_feed_type: FeedType,
    /// The one feed the contract accepts prices from.
    pub oracle_feed_key: Address,
    /// The scale of the contract's prices: a price is the quoted value times
    /// this multiplier.
    pub oracle_price_multiplier: u64,
    /// The width of the band, in collateral units per contract unit.
    pub limiting_amplitude: u64,
    pub starting_price: u64,
    pub starting_time: u64,
    /// Zero until settlement is triggered, fixed from then on.
    pub ending_price: u64,
    /// The maturity.
    pub ending_time: u64,
    pub cap_product: u64,
    pub current_tvl_usdc: u64,
    pub current_tvl_underlying: u64,
    /// The sum of the collateral locked against open exposure.
    pub global_current_locked_usdc: u64,
    /// The sum of the long units outstanding.
    pub global_current_issued_lcontract: u64,
    pub test_mode: u64,
    pub bands_shift: u64,
    pub vayoo_precisions: u8,
}

impl Clone for ContractState {
    fn clone(&self) -> (copy: ContractState)
        ensures
            copy == *self,
    {
        ContractState {
            name: self.name.clone(),
            bump: self.bump,
            authority: self.authority,
            escrow_vault_collateral: self.escrow_vault_collateral,
            is_halted: self.is_halted,
            is_halted_deposit: self.is_halted_deposit,
            is_halted_trading: self.is_halted_trading,
            is_settling: self.is_settling,
            collateral_mint: self.collateral_mint,
            lcontract_mint: self.lcontract_mint,
            scontract_mint: self.scontract_mint,
            oracle_feed_type: self.oracle_feed_type,
            oracle_feed_key: self.oracle_feed_key,
            oracle_price_multiplier: self.oracle_price_multiplier,
            limiting_amplitude: self.limiting_amplitude,
            starting_price: self.starting_price,
            starting_time: self.starting_time,
            ending_price: self.ending_price,
            ending_time: self.ending_time,
            cap_product: self.cap_product,
            current_tvl_usdc: self.current_tvl_usdc,
            current_tvl_underlying: self.current_tvl_underlying,
            global_current_locked_usdc: self.global_current_locked_usdc,
            global_current_issued_lcontract: self.global_current_issued_lcontract,
            test_mode: self.test_mode,
            bands_shift: self.bands_shift,
            vayoo_precisions: self.vayoo_precisions,
        }
    }
}

impl ContractState {
    pub open spec fn phase_spec(&self) -> Phase {
        if !self.is_settling {
            Phase::Trading
        } else if self.global_current_issued_lcontract > 0 {
            Phase::Settling
        } else {
            Phase::Closed
        }
    }

    /// The contract's place in its life: trading until settlement is
    /// triggered, closed once settling and drained of issued units.
    #[verifier::when_used_as_spec(phase_spec)]
    pub fn phase(&self) -> (p: Phase)
        ensures
            p == self.phase_spec(),
    {
        if !self.is_settling {
            Phase::Trading
        } else if self.global_current_issued_lcontract > 0 {
            Phase::Settling
        } else {
            Phase::Closed
        }
    }

    /// Whether the contract's price band exists.
    pub open spec fn band_defined(self) -> bool {
        band_defined(self.starting_price, self.limiting_amplitude, self.oracle_price_multiplier)
    }

    /// What one long unit gains at the recorded ending price, in scaled units.
    pub open spec fn long_scaled(self) -> int {
        long_scaled(
            self.starting_price,
            self.ending_price,
            self.limiting_amplitude,
            self.oracle_price_multiplier,
        )
    }

    /// What one short unit gains at the recorded ending price, in scaled units.
    pub open spec fn short_scaled(self) -> int {
        short_scaled(
            self.starting_price,
            self.ending_price,
            self.limiting_amplitude,
            self.oracle_price_multiplier,
        )
    }
}

/// How far a phase is along a contract's life.
pub open spec fn phase_rank(p: Phase) -> int {
    match p {
        Phase::Trading => 0,
        Phase::Settling => 1,
        Phase::Closed => 2,
    }
}

} // verus!
