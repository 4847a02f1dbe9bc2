use vstd::prelude::*;
use crate::errors::ErrorCode;
use crate::types::Address;

verus! {

/// One participant's ledger in one contract.
#[derive(Clone, Copy, Debug, Default, PartialEq, Eq)]
pub struct UserState {
    /// The contract this ledger belongs to.
    pub contract_account: Address,
    pub bump: u8,
    pub authority: Address,
    pub ishalted: bool,
    /// Set once the participant has redeemed a position at settlement.
    pub issettled: bool,
    /// Signed record of the exposure changes; informational.
    pub contract_position_net: i64,
    /// Collateral locked against the units minted as market maker.
    pub usdc_collateral_locked_as_mm: u64,
    /// Long units minted as market maker, still outstanding.
    pub lcontract_minted_as_mm: u64,
    /// Long units bought, still outstanding.
    pub lcontract_bought_as_user: u64,
    /// Short units sold, still outstanding.
    pub scontract_sold_as_user: u64,
    /// Collateral locked against the short units sold.
    pub usdc_collateral_locked_as_user: u64,
    /// Collateral spent on long units.
    pub usdc_collateral_spent_as_user: u64,
    /// Collateral deposited, less what was withdrawn.
    pub usdc_deposited: u64,
    /// Reset when the ledger is set up; no operation changes it.
    pub usdc_withdrawn: u64,
    /// Collateral that closing, burning and redeeming have released to the
    /// free account.
    pub usdc_free: u64,
}

impl UserState {
    /// The collateral locked against the position, both as seller and as
    /// market maker.
    pub open spec fn locked_collateral(self) -> int {
        self.usdc_collateral_locked_as_user as int + self.usdc_collateral_locked_as_mm as int
    }

    /// The units the position has issued: those sold short and those minted
    /// as market maker.
    pub open spec fn issued_units(self) -> int {
        self.scontract_sold_as_user as int + self.lcontract_minted_as_mm as int
    }

    /// No unit of any kind is outstanding.
    pub open spec fn is_flat(self) -> bool {
        &&& self.lcontract_bought_as_user == 0
        &&& self.scontract_sold_as_user == 0
        &&& self.lcontract_minted_as_mm == 0
    }
}

/// The signed record after `up` units were added to it and `down` taken away.
pub open spec fn net_after(net: i64, up: u64, down: u64) -> int {
    net as int + up as int - down as int
}

/// Moves the signed record up and down; `Overflow` where the result is no
/// `i64` value.
pub fn net_shift(net: i64, up: u64, down: u64) -> (r: Result<i64, ErrorCode>)
    ensures
        i64::MIN as int <= net_after(net, up, down) <= i64::MAX as int ==> r == Ok::<
            i64,
            ErrorCode,
        >(net_after(net, up, down) as i64),
        !(i64::MIN as int <= net_after(net, up, down) <= i64::MAX as int) ==> r == Err::<
            i64,
            ErrorCode,
        >(ErrorCode::Overflow),
{
    let wide: i128 = net as i128 + up as i128 - down as i128;
    if wide < i64::MIN as i128 || wide > i64::MAX as i128 {
        return Err(ErrorCode::Overflow);
    }
    Ok(wide as i64)
}

} // verus!
