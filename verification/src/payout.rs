use vstd::prelude::*;
use vstd::arithmetic::div_mod::lemma_fundamental_div_mod_converse;
use vstd::arithmetic::div_mod::lemma_fundamental_div_mod;
use crate::errors::ErrorCode;

verus! {

/// What one unit of each side is paid, in whole collateral units.
#[derive(Clone, Copy, Debug, PartialEq, Eq, Structural)]
pub struct Payout {
    pub long_per_unit: u64,
    pub short_per_unit: u64,
}

/// The price band of a contract, in scaled oracle units.
#[derive(Clone, Copy, Debug, PartialEq, Eq, Structural)]
pub struct PriceBand {
    pub lower_bound: u64,
    pub upper_bound: u64,
}

/// Half of the band's width: `amplitude * scale / 2`, rounded down.
pub open spec fn midrange(amplitude: u64, scale: u64) -> int {
    (amplitude as int * scale as int) / 2
}

/// The band exists: the scaled amplitude and both bounds are `u64` values.
pub open spec fn band_defined(starting_price: u64, amplitude: u64, scale: u64) -> bool {
    &&& amplitude as int * scale as int <= u64::MAX as int
    &&& midrange(amplitude, scale) <= starting_price as int
    &&& starting_price as int + midrange(amplitude, scale) <= u64::MAX as int
}

/// The payout exists: the band does, and the scale can divide.
pub open spec fn payout_defined(starting_price: u64, amplitude: u64, scale: u64) -> bool {
    scale > 0 && band_defined(starting_price, amplitude, scale)
}

pub open spec fn lower_bound(starting_price: u64, amplitude: u64, scale: u64) -> int {
    starting_price as int - midrange(amplitude, scale)
}

pub open spec fn upper_bound(starting_price: u64, amplitude: u64, scale: u64) -> int {
    starting_price as int + midrange(amplitude, scale)
}

/// The ending price, moved to the nearer bound where it lies outside the band.
pub open spec fn settled_price(
    starting_price: u64,
    ending_price: u64,
    amplitude: u64,
    scale: u64,
) -> int {
    let lo = lower_bound(starting_price, amplitude, scale);
    let hi = upper_bound(starting_price, amplitude, scale);
    if ending_price as int > hi {
        hi
    } else if (ending_price as int) < lo {
        lo
    } else {
        ending_price as int
    }
}

/// What one long unit has gained, in scaled oracle units.
pub open spec fn long_scaled(
    starting_price: u64,
    ending_price: u64,
    amplitude: u64,
    scale: u64,
) -> int {
    settled_price(starting_price, ending_price, amplitude, scale) - lower_bound(
        starting_price,
        amplitude,
        scale,
    )
}

/// What one short unit has gained, in scaled oracle units.
pub open spec fn short_scaled(
    starting_price: u64,
    ending_price: u64,
    amplitude: u64,
    scale: u64,
) -> int {
    upper_bound(starting_price, amplitude, scale) - settled_price(
        starting_price,
        ending_price,
        amplitude,
        scale,
    )
}

pub open spec fn long_per_unit(
    starting_price: u64,
    ending_price: u64,
    amplitude: u64,
    scale: u64,
) -> int {
    long_scaled(starting_price, ending_price, amplitude, scale) / (scale as int)
}

pub open spec fn short_per_unit(
    starting_price: u64,
    ending_price: u64,
    amplitude: u64,
    scale: u64,
) -> int {
    short_scaled(starting_price, ending_price, amplitude, scale) / (scale as int)
}

/// The two per-unit payouts add up to the amplitude exactly when nothing is
/// lost to rounding: the scaled amplitude is even and the long side's scaled
/// gain is a multiple of the scale.
pub open spec fn payout_exact(
    starting_price: u64,
    ending_price: u64,
    amplitude: u64,
    scale: u64,
) -> bool {
    &&& (amplitude as int * scale as int) % 2 == 0
    &&& long_scaled(starting_price, ending_price, amplitude, scale) % (scale as int) == 0
}

/// What one unit of each side has gained, in scaled oracle units.
#[derive(Clone, Copy, Debug, PartialEq, Eq, Structural)]
pub struct ScaledPayout {
    pub long: u64,
    pub short: u64,
}

/// What `units` units are paid when one unit has gained `per_unit_scaled`:
/// the product is taken first and divided by the scale once, rounding down.
pub open spec fn gains(units: u64, per_unit_scaled: int, scale: u64) -> int {
    (units as int * per_unit_scaled) / (scale as int)
}

/// The product that `gains` divides is a `u64` value, and the scale can divide.
pub open spec fn gains_defined(units: u64, per_unit_scaled: int, scale: u64) -> bool {
    scale > 0 && units as int * per_unit_scaled <= u64::MAX as int
}

/// The band `[starting_price - midrange, starting_price + midrange]`.
pub fn price_band(starting_price: u64, amplitude: u64, scale: u64) -> (r: Result<
    PriceBand,
    ErrorCode,
>)
    ensures
        band_defined(starting_price, amplitude, scale) ==> r == Ok::<PriceBand, ErrorCode>(
            PriceBand {
                lower_bound: lower_bound(starting_price, amplitude, scale) as u64,
                upper_bound: upper_bound(starting_price, amplitude, scale) as u64,
            },
        ),
        !band_defined(starting_price, amplitude, scale) ==> r == Err::<PriceBand, ErrorCode>(
            ErrorCode::Overflow,
        ),
{
    let scaled = match amplitude.checked_mul(scale) {
        Some(v) => v,
        None => { return Err(ErrorCode::Overflow); },
    };
    let mid: u64 = scaled / 2;
    let lo = match starting_price.checked_sub(mid) {
        Some(v) => v,
        None => { return Err(ErrorCode::Overflow); },
    };
    let hi = match starting_price.checked_add(mid) {
        Some(v) => v,
        None => { return Err(ErrorCode::Overflow); },
    };
    Ok(PriceBand { lower_bound: lo, upper_bound: hi })
}

/// A price moved to the nearer bound of the band where it lies outside.
pub fn clamp_price(band: &PriceBand, price: u64) -> (r: u64)
    ensures
        r == if price > band.upper_bound {
            band.upper_bound
        } else if price < band.lower_bound {
            band.lower_bound
        } else {
            price
        },
{
    if price > band.upper_bound {
        band.upper_bound
    } else if price < band.lower_bound {
        band.lower_bound
    } else {
        price
    }
}

/// What one unit of each side has gained at `ending_price`, before the
/// division by the scale.
pub fn scaled_payout(starting_price: u64, ending_price: u64, amplitude: u64, scale: u64) -> (r:
    Result<ScaledPayout, ErrorCode>)
    ensures
        band_defined(starting_price, amplitude, scale) ==> r == Ok::<ScaledPayout, ErrorCode>(
            ScaledPayout {
                long: long_scaled(starting_price, ending_price, amplitude, scale) as u64,
                short: short_scaled(starting_price, ending_price, amplitude, scale) as u64,
            },
        ),
        !band_defined(starting_price, amplitude, scale) ==> r == Err::<ScaledPayout, ErrorCode>(
            ErrorCode::Overflow,
        ),
        r is Ok ==> r->Ok_0.long as int + r->Ok_0.short as int == 2 * midrange(amplitude, scale),
        r is Ok ==> r->Ok_0.long as int <= amplitude as int * scale as int,
        r is Ok ==> r->Ok_0.short as int <= amplitude as int * scale as int,
{
    let band = match price_band(starting_price, amplitude, scale) {
        Ok(b) => b,
        Err(e) => { return Err(e); },
    };
    let settled = clamp_price(&band, ending_price);
    Ok(ScaledPayout { long: settled - band.lower_bound, short: band.upper_bound - settled })
}

/// The per-unit payout of both sides at `ending_price`.
///
/// The ending price is first moved into the band, then each side's distance
/// to its own bound is divided by the scale, rounding down. Any step that
/// leaves the `u64` domain, or a zero scale, gives `Overflow`.
///
/// The two payouts never exceed the amplitude together, and add up to it
/// exactly when `payout_exact` holds. At or beyond the upper bound the short
/// side gets nothing; at or beyond the lower bound the long side gets nothing;
/// the other side then gets the whole amplitude if the scaled amplitude is
/// even.
pub fn clamped_payout(starting_price: u64, ending_price: u64, amplitude: u64, scale: u64) -> (r:
    Result<Payout, ErrorCode>)
    ensures
        payout_defined(starting_price, amplitude, scale) ==> r == Ok::<Payout, ErrorCode>(
            Payout {
                long_per_unit: long_per_unit(starting_price, ending_price, amplitude, scale) as u64,
                short_per_unit: short_per_unit(
                    starting_price,
                    ending_price,
                    amplitude,
                    scale,
                ) as u64,
            },
        ),
        !payout_defined(starting_price, amplitude, scale) ==> r == Err::<Payout, ErrorCode>(
            ErrorCode::Overflow,
        ),
        r is Ok ==> r->Ok_0.long_per_unit as int + r->Ok_0.short_per_unit as int
            <= amplitude as int,
        r is Ok ==> (r->Ok_0.long_per_unit as int + r->Ok_0.short_per_unit as int
            == amplitude as int <==> payout_exact(starting_price, ending_price, amplitude, scale)),
        r is Ok && ending_price as int >= upper_bound(starting_price, amplitude, scale)
            ==> r->Ok_0.short_per_unit == 0,
        r is Ok && ending_price as int <= lower_bound(starting_price, amplitude, scale)
            ==> r->Ok_0.long_per_unit == 0,
        r is Ok && ending_price as int >= upper_bound(starting_price, amplitude, scale) && (
        amplitude as int * scale as int) % 2 == 0 ==> r->Ok_0.long_per_unit == amplitude,
        r is Ok && ending_price as int <= lower_bound(starting_price, amplitude, scale) && (
        amplitude as int * scale as int) % 2 == 0 ==> r->Ok_0.short_per_unit == amplitude,
{
    if scale == 0 {
        return Err(ErrorCode::Overflow);
    }
    let scaled = match scaled_payout(starting_price, ending_price, amplitude, scale) {
        Ok(p) => p,
        Err(e) => { return Err(e); },
    };
    proof {
        lemma_payout_sum(starting_price, ending_price, amplitude, scale);
        lemma_payout_at_bounds(starting_price, ending_price, amplitude, scale);
    }
    Ok(Payout { long_per_unit: scaled.long / scale, short_per_unit: scaled.short / scale })
}

/// What `units` units are paid when one unit has gained `per_unit_scaled`.
pub fn position_gains(units: u64, per_unit_scaled: u64, scale: u64) -> (r: Result<u64, ErrorCode>)
    ensures
        gains_defined(units, per_unit_scaled as int, scale) ==> r == Ok::<u64, ErrorCode>(
            gains(units, per_unit_scaled as int, scale) as u64,
        ),
        !gains_defined(units, per_unit_scaled as int, scale) ==> r == Err::<u64, ErrorCode>(
            ErrorCode::Overflow,
        ),
{
    let product = match units.checked_mul(per_unit_scaled) {
        Some(v) => v,
        None => { return Err(ErrorCode::Overflow); },
    };
    if scale == 0 {
        return Err(ErrorCode::Overflow);
    }
    Ok(product / scale)
}

/// Zero-sum of the per-unit payouts: together they never exceed the
/// amplitude, they fall short of it by at most one, and they meet it exactly
/// when `payout_exact` holds.
pub proof fn lemma_payout_sum(starting_price: u64, ending_price: u64, amplitude: u64, scale: u64)
    requires
        payout_defined(starting_price, amplitude, scale),
    ensures
        0 <= long_per_unit(starting_price, ending_price, amplitude, scale) <= amplitude,
        0 <= short_per_unit(starting_price, ending_price, amplitude, scale) <= amplitude,
        long_per_unit(starting_price, ending_price, amplitude, scale) + short_per_unit(
            starting_price,
            ending_price,
            amplitude,
            scale,
        ) <= amplitude,
        long_per_unit(starting_price, ending_price, amplitude, scale) + short_per_unit(
            starting_price,
            ending_price,
            amplitude,
            scale,
        ) >= amplitude - 1,
        long_per_unit(starting_price, ending_price, amplitude, scale) + short_per_unit(
            starting_price,
            ending_price,
            amplitude,
            scale,
        ) == amplitude <==> payout_exact(starting_price, ending_price, amplitude, scale),
{
    let s = scale as int;
    let a = amplitude as int;
    let w = a * s;
    let l = long_scaled(starting_price, ending_price, amplitude, scale);
    let u = short_scaled(starting_price, ending_price, amplitude, scale);
    let q = l / s;
    let r = l % s;
    assert(l + u == 2 * (w / 2));
    assert(0 <= l && 0 <= u);
    lemma_fundamental_div_mod(l, s);
    assert(l == s * q + r);
    assert(0 <= r < s);
    // The short side's quotient, from the remainder of the long side's.
    let lost: int = if w % 2 == 0 && r == 0 { 0 } else { 1 };
    let rest: int = if w % 2 == 0 {
        if r == 0 { 0 } else { s - r }
    } else {
        s - r - 1
    };
    assert(u == (a - q - lost) * s + rest) by (nonlinear_arith)
        requires
            l + u == 2 * (w / 2),
            w == a * s,
            l == s * q + r,
            lost == (if w % 2 == 0 && r == 0 { 0int } else { 1int }),
            rest == (if w % 2 == 0 { if r == 0 { 0int } else { s - r } } else { s - r - 1 }),
    ;
    assert(0 <= rest < s);
    lemma_fundamental_div_mod_converse(u, s, a - q - lost, rest);
    assert(u / s == a - q - lost);
    assert(0 <= q) by (nonlinear_arith)
        requires
            l == s * q + r,
            0 <= l,
            0 <= r < s,
    ;
    assert(0 <= a - q - lost) by (nonlinear_arith)
        requires
            u == (a - q - lost) * s + rest,
            0 <= u,
            0 <= rest < s,
    ;
}

/// The two sides of a trade never get more than was locked for it: what
/// `units` long units and `units` short units are paid together stays within
/// the amplitude for every unit.
pub proof fn lemma_both_sides_within_stake(
    units: u64,
    starting_price: u64,
    ending_price: u64,
    amplitude: u64,
    scale: u64,
)
    requires
        payout_defined(starting_price, amplitude, scale),
    ensures
        gains(units, long_scaled(starting_price, ending_price, amplitude, scale), scale) + gains(
            units,
            short_scaled(starting_price, ending_price, amplitude, scale),
            scale,
        ) <= units as int * amplitude as int,
{
    let n = units as int;
    let s = scale as int;
    let a = amplitude as int;
    let l = long_scaled(starting_price, ending_price, amplitude, scale);
    let u = short_scaled(starting_price, ending_price, amplitude, scale);
    assert(l + u <= a * s);
    assert(0 <= l && 0 <= u);
    let x = n * l;
    let y = n * u;
    assert(x + y <= (n * a) * s && 0 <= x && 0 <= y) by (nonlinear_arith)
        requires
            0 <= n,
            0 <= l,
            0 <= u,
            l + u <= a * s,
            x == n * l,
            y == n * u,
    ;
    assert(x / s + y / s <= n * a) by (nonlinear_arith)
        requires
            s > 0,
            0 <= x,
            0 <= y,
            x + y <= (n * a) * s,
    ;
}

/// At or beyond a bound one side gets nothing, and the other the whole
/// amplitude if the scaled amplitude is even, one less if it is odd.
pub proof fn lemma_payout_at_bounds(
    starting_price: u64,
    ending_price: u64,
    amplitude: u64,
    scale: u64,
)
    requires
        payout_defined(starting_price, amplitude, scale),
    ensures
        ending_price as int >= upper_bound(starting_price, amplitude, scale) ==> short_per_unit(
            starting_price,
            ending_price,
            amplitude,
            scale,
        ) == 0,
        ending_price as int <= lower_bound(starting_price, amplitude, scale) ==> long_per_unit(
            starting_price,
            ending_price,
            amplitude,
            scale,
        ) == 0,
        ending_price as int >= upper_bound(starting_price, amplitude, scale) ==> long_per_unit(
            starting_price,
            ending_price,
            amplitude,
            scale,
        ) == (if (amplitude as int * scale as int) % 2 == 0 {
            amplitude as int
        } else {
            amplitude as int - 1
        }),
        ending_price as int <= lower_bound(starting_price, amplitude, scale) ==> short_per_unit(
            starting_price,
            ending_price,
            amplitude,
            scale,
        ) == (if (amplitude as int * scale as int) % 2 == 0 {
            amplitude as int
        } else {
            amplitude as int - 1
        }),
{
    let s = scale as int;
    let lo = lower_bound(starting_price, amplitude, scale);
    let hi = upper_bound(starting_price, amplitude, scale);
    lemma_payout_sum(starting_price, ending_price, amplitude, scale);
    assert(0int / s == 0) by (nonlinear_arith)
        requires
            s > 0,
    ;
    if ending_price as int >= hi {
        assert(short_scaled(starting_price, ending_price, amplitude, scale) == 0);
        if (amplitude as int * s) % 2 == 0 {
            let l = long_scaled(starting_price, ending_price, amplitude, scale);
            assert(l == amplitude as int * s + 0);
            lemma_fundamental_div_mod_converse(l, s, amplitude as int, 0);
        }
    }
    if ending_price as int <= lo {
        assert(long_scaled(starting_price, ending_price, amplitude, scale) == 0);
        assert(0int % s == 0) by (nonlinear_arith)
            requires
                s > 0,
        ;
    }
}

} // verus!
