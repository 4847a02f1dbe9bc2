use vstd::prelude::*;

verus! {

/// What the custody accounts of a position held before and after a swap on
/// the outside venue. The venue can fill an order in part, so an operation
/// goes by these balances and never by the amount that was asked for.
#[derive(Clone, Copy, Debug, Default, PartialEq, Eq, Structural)]
pub struct SwapObservation {
    /// Long units held before the swap.
    pub units_before: u64,
    /// Long units held after the swap.
    pub units_after: u64,
    /// Collateral held before the swap, in the account the swap pays from or into.
    pub collateral_before: u64,
    /// Collateral held after the swap, in the same account.
    pub collateral_after: u64,
}

impl SwapObservation {
    /// How much `after` lies above `before`; zero where it does not.
    pub open spec fn rise(before: u64, after: u64) -> int {
        if after > before {
            after as int - before as int
        } else {
            0
        }
    }

    /// Long units that the swap brought in.
    pub open spec fn units_gained(self) -> int {
        Self::rise(self.units_before, self.units_after)
    }

    /// Long units that the swap took away.
    pub open spec fn units_given(self) -> int {
        Self::rise(self.units_after, self.units_before)
    }

    /// Collateral that the swap brought in.
    pub open spec fn collateral_gained(self) -> int {
        Self::rise(self.collateral_before, self.collateral_after)
    }

    /// Collateral that the swap took away.
    pub open spec fn collateral_given(self) -> int {
        Self::rise(self.collateral_after, self.collateral_before)
    }
}

/// How much `after` lies above `before`; zero where it does not.
pub fn rise(before: u64, after: u64) -> (r: u64)
    ensures
        r as int == SwapObservation::rise(before, after),
{
    if after > before {
        after - before
    } else {
        0
    }
}

/// The value that an operation orders to be moved between custody accounts.
/// The caller carries the movements out; each of them fails as a whole where
/// its source holds too little.
#[derive(Clone, Copy, Debug, Default, PartialEq, Eq, Structural)]
pub struct Movements {
    /// Collateral from the participant's free account to their locked account.
    pub free_to_locked: u64,
    /// Collateral from the participant's locked account to their free account.
    pub locked_to_free: u64,
    /// Collateral from the participant's locked account to the shared escrow.
    pub locked_to_escrow: u64,
    /// Collateral from the shared escrow to the participant: to the free
    /// account of their position, or to their own wallet where they redeem
    /// units held outside a position.
    pub escrow_to_free: u64,
    /// Collateral from outside into the participant's free account.
    pub deposit: u64,
    /// Collateral from the participant's free account to the outside.
    pub withdrawal: u64,
    /// Long units to mint.
    pub mint_long: u64,
    /// Short units to mint.
    pub mint_short: u64,
    /// Long units to burn.
    pub burn_long: u64,
    /// Short units to burn.
    pub burn_short: u64,
}

impl Movements {
    /// No value moves.
    pub open spec fn none_spec() -> Movements {
        Movements {
            free_to_locked: 0,
            locked_to_free: 0,
            locked_to_escrow: 0,
            escrow_to_free: 0,
            deposit: 0,
            withdrawal: 0,
            mint_long: 0,
            mint_short: 0,
            burn_long: 0,
            burn_short: 0,
        }
    }

    /// No value moves.
    #[verifier::when_used_as_spec(none_spec)]
    pub fn none() -> (m: Movements)
        ensures
            m == Movements::none_spec(),
    {
        Movements {
            free_to_locked: 0,
            locked_to_free: 0,
            locked_to_escrow: 0,
            escrow_to_free: 0,
            deposit: 0,
            withdrawal: 0,
            mint_long: 0,
            mint_short: 0,
            burn_long: 0,
            burn_short: 0,
        }
    }
}

} // verus!
