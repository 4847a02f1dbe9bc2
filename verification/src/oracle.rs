use vstd::prelude::*;
use pyth_sdk_solana::Price;
use pyth_sdk_solana::PriceFeed;
use pyth_sdk_solana::PriceIdentifier;
use crate::errors::ErrorCode;
use crate::types::Address;
use crate::types::FeedType;

verus! {

/// How old a reading may be, in time units.
pub const FRESHNESS_WINDOW: i64 = 60;

/// The scale that aggregator prices are brought to.
pub const AGGREGATOR_SCALE: u64 = 1_000_000;

/// A price as one of the outside feeds reports it.
#[derive(Clone, Copy, Debug, PartialEq, Eq)]
pub enum OracleReading {
    /// A pull oracle: the value is `price * 10^expo`, give or take `conf`.
    Pyth { feed: Address, price: i64, conf: u64, expo: i32, publish_time: i64 },
    /// An aggregator: the value is `mantissa / 10^scale`.
    Switchboard { feed: Address, mantissa: i128, scale: u32, round_open_timestamp: i64 },
}

/// A price in the common form: the value is `price / scale`.
#[derive(Clone, Copy, Debug, PartialEq, Eq, Structural)]
pub struct NormalizedPrice {
    pub price: u64,
    pub scale: u64,
}

/// A pull oracle's price published at `publish_time` is within `age` of
/// `now`, before or after.
pub open spec fn within_age(publish_time: i64, now: i64, age: u64) -> bool {
    let apart = publish_time as int - now as int;
    -(age as int) <= apart <= age as int
}

/// `PriceFeed::get_price_no_older_than` of the pull oracle's crate, on a feed
/// made of the values given. The feed hands its price and exponent back if
/// the price was published within `age` of `now`, before or after, and
/// nothing otherwise. The distance between the two times must be an `i64`
/// value with an absolute value: the feed computes it so.
#[verifier::external_body]
fn price_no_older_than(
    feed: &Address,
    price: i64,
    conf: u64,
    expo: i32,
    publish_time: i64,
    now: i64,
    age: u64,
) -> (r: Option<(i64, i32)>)
    requires
        (i64::MIN as int) < publish_time as int - now as int <= i64::MAX as int,
    ensures
        r == if within_age(publish_time, now, age) {
            Some((price, expo))
        } else {
            None
        },
{
    let quoted = Price { price, conf, expo, publish_time };
    let source = PriceFeed::new(PriceIdentifier::new(feed.bytes), quoted, quoted);
    match source.get_price_no_older_than(now, age) {
        Some(fresh) => Some((fresh.price, fresh.expo)),
        None => None,
    }
}

pub open spec fn pow10(k: nat) -> nat
    decreases k,
{
    if k == 0 {
        1
    } else {
        10 * pow10((k - 1) as nat)
    }
}

impl OracleReading {
    /// The feed that the reading came from.
    pub open spec fn feed_spec(&self) -> Address {
        match *self {
            OracleReading::Pyth { feed, .. } => feed,
            OracleReading::Switchboard { feed, .. } => feed,
        }
    }

    /// The kind of feed that the reading came from.
    pub open spec fn kind_spec(&self) -> FeedType {
        match *self {
            OracleReading::Pyth { .. } => FeedType::Pyth,
            OracleReading::Switchboard { .. } => FeedType::Switchboard,
        }
    }

    /// The reading is not fresh at `now`. A pull oracle's reading is fresh
    /// within the freshness window of `now`, before or after; an
    /// aggregator's reading is fresh until it is older than the window.
    pub open spec fn is_stale_spec(&self, now: i64) -> bool {
        match *self {
            OracleReading::Pyth { publish_time, .. } => !within_age(
                publish_time,
                now,
                FRESHNESS_WINDOW as u64,
            ),
            OracleReading::Switchboard { round_open_timestamp, .. } => now as int
                - round_open_timestamp as int > FRESHNESS_WINDOW as int,
        }
    }

    /// The error that a stale reading of this kind gives.
    pub open spec fn stale_error(&self) -> ErrorCode {
        match *self {
            OracleReading::Pyth { .. } => ErrorCode::PythOffline,
            OracleReading::Switchboard { .. } => ErrorCode::StaleFeed,
        }
    }

    /// The reading in the common form, where it has one: the price is not
    /// negative, and price and scale are `u64` values. A pull oracle's price
    /// is kept with the scale `10^-expo`; an aggregator's price is brought to
    /// `AGGREGATOR_SCALE`, rounding down.
    pub open spec fn normalized(&self) -> Option<NormalizedPrice> {
        match *self {
            OracleReading::Pyth { price, expo, .. } => {
                if price >= 0 && expo <= 0 && pow10((-(expo as int)) as nat) <= u64::MAX as nat {
                    Some(
                        NormalizedPrice {
                            price: price as u64,
                            scale: pow10((-(expo as int)) as nat) as u64,
                        },
                    )
                } else {
                    None
                }
            },
            OracleReading::Switchboard { mantissa, scale, .. } => {
                if 0 <= mantissa <= u64::MAX as i128 && pow10(scale as nat) <= u64::MAX as nat && (
                mantissa as int * AGGREGATOR_SCALE as int) / (pow10(scale as nat) as int)
                    <= u64::MAX as int {
                    Some(
                        NormalizedPrice {
                            price: ((mantissa as int * AGGREGATOR_SCALE as int) / (pow10(
                                scale as nat,
                            ) as int)) as u64,
                            scale: AGGREGATOR_SCALE,
                        },
                    )
                } else {
                    None
                }
            },
        }
    }

    #[verifier::when_used_as_spec(feed_spec)]
    pub fn feed(&self) -> (r: Address)
        ensures
            r == self.feed_spec(),
    {
        match *self {
            OracleReading::Pyth { feed, .. } => feed,
            OracleReading::Switchboard { feed, .. } => feed,
        }
    }

    #[verifier::when_used_as_spec(kind_spec)]
    pub fn kind(&self) -> (r: FeedType)
        ensures
            r == self.kind_spec(),
    {
        match *self {
            OracleReading::Pyth { .. } => FeedType::Pyth,
            OracleReading::Switchboard { .. } => FeedType::Switchboard,
        }
    }

    #[verifier::when_used_as_spec(is_stale_spec)]
    pub fn is_stale(&self, now: i64) -> (r: bool)
        ensures
            r == self.is_stale_spec(now),
    {
        match *self {
            OracleReading::Pyth { feed, price, conf, expo, publish_time } => {
                let apart: i128 = publish_time as i128 - now as i128;
                if apart <= i64::MIN as i128 || apart > i64::MAX as i128 {
                    true
                } else {
                    price_no_older_than(
                        &feed,
                        price,
                        conf,
                        expo,
                        publish_time,
                        now,
                        FRESHNESS_WINDOW as u64,
                    ).is_none()
                }
            },
            OracleReading::Switchboard { round_open_timestamp, .. } => now as i128
                - round_open_timestamp as i128 > FRESHNESS_WINDOW as i128,
        }
    }

    /// Brings the reading to the common form; `Overflow` where it has none.
    pub fn normalize(&self) -> (r: Result<NormalizedPrice, ErrorCode>)
        ensures
            match self.normalized() {
                Some(p) => r == Ok::<NormalizedPrice, ErrorCode>(p),
                None => r == Err::<NormalizedPrice, ErrorCode>(ErrorCode::Overflow),
            },
    {
        match *self {
            OracleReading::Pyth { price, expo, .. } => {
                if price < 0 || expo > 0 {
                    return Err(ErrorCode::Overflow);
                }
                let digits: u32 = if expo == i32::MIN {
                    2147483648u32
                } else {
                    (-expo) as u32
                };
                match checked_pow10(digits) {
                    Some(scale) => Ok(NormalizedPrice { price: price as u64, scale }),
                    None => Err(ErrorCode::Overflow),
                }
            },
            OracleReading::Switchboard { mantissa, scale, .. } => {
                if mantissa < 0 || mantissa > u64::MAX as i128 {
                    return Err(ErrorCode::Overflow);
                }
                let divisor: u64 = match checked_pow10(scale) {
                    Some(v) => v,
                    None => { return Err(ErrorCode::Overflow); },
                };
                proof {
                    lemma_pow10_positive(scale as nat);
                    assert(mantissa as int * AGGREGATOR_SCALE as int <= u64::MAX as int
                        * 1_000_000) by (nonlinear_arith)
                        requires
                            0 <= mantissa <= u64::MAX as i128,
                            AGGREGATOR_SCALE == 1_000_000,
                    ;
                }
                let product: u128 = (mantissa as u128) * (AGGREGATOR_SCALE as u128);
                let value: u128 = product / (divisor as u128);
                if value > u64::MAX as u128 {
                    return Err(ErrorCode::Overflow);
                }
                Ok(NormalizedPrice { price: value as u64, scale: AGGREGATOR_SCALE })
            },
        }
    }
}

/// A price in another scale, where it has one there: `price * target / scale`,
/// rounded down, is a `u64` value.
pub open spec fn rescaled(price: NormalizedPrice, target_scale: u64) -> Option<u64> {
    if price.scale > 0 && (price.price as int * target_scale as int) / (price.scale as int)
        <= u64::MAX as int {
        Some(((price.price as int * target_scale as int) / (price.scale as int)) as u64)
    } else {
        None
    }
}

/// Brings a price to another scale; `Overflow` where it has none there.
pub fn rescale(price: NormalizedPrice, target_scale: u64) -> (r: Result<u64, ErrorCode>)
    ensures
        match rescaled(price, target_scale) {
            Some(v) => r == Ok::<u64, ErrorCode>(v),
            None => r == Err::<u64, ErrorCode>(ErrorCode::Overflow),
        },
        r is Ok && price.scale == target_scale ==> r == Ok::<u64, ErrorCode>(price.price),
{
    if price.scale == 0 {
        return Err(ErrorCode::Overflow);
    }
    proof {
        assert(price.price as int * target_scale as int <= u64::MAX as int * u64::MAX as int)
            by (nonlinear_arith)
            requires
                0 <= price.price as int <= u64::MAX as int,
                0 <= target_scale as int <= u64::MAX as int,
        ;
        if price.scale == target_scale {
            let p = price.price as int;
            let s = price.scale as int;
            assert((p * s) / s == p) by (nonlinear_arith)
                requires
                    s > 0,
            ;
        }
    }
    let product: u128 = (price.price as u128) * (target_scale as u128);
    let value: u128 = product / (price.scale as u128);
    if value > u64::MAX as u128 {
        return Err(ErrorCode::Overflow);
    }
    Ok(value as u64)
}

/// What reading a price for a contract of feed kind `kind` gives at `now`.
///
/// A reading of another kind, or any reading for an unknown kind, is an
/// `InvalidFeedType`. A reading older than the freshness window is
/// `PythOffline` from a pull oracle and `StaleFeed` from an aggregator. A
/// reading without a common form is an `Overflow`.
pub open spec fn reading_outcome(reading: OracleReading, kind: FeedType, now: i64) -> Result<
    NormalizedPrice,
    ErrorCode,
> {
    if reading.kind() != kind {
        Err(ErrorCode::InvalidFeedType)
    } else if reading.is_stale(now) {
        Err(reading.stale_error())
    } else {
        match reading.normalized() {
            Some(p) => Ok(p),
            None => Err(ErrorCode::Overflow),
        }
    }
}

/// Reads a price for a contract of feed kind `kind` at `now`.
pub fn read_price(reading: &OracleReading, kind: FeedType, now: i64) -> (r: Result<
    NormalizedPrice,
    ErrorCode,
>)
    ensures
        r == reading_outcome(*reading, kind, now),
{
    if reading.kind() != kind {
        return Err(ErrorCode::InvalidFeedType);
    }
    if reading.is_stale(now) {
        return match *reading {
            OracleReading::Pyth { .. } => Err(ErrorCode::PythOffline),
            OracleReading::Switchboard { .. } => Err(ErrorCode::StaleFeed),
        };
    }
    reading.normalize()
}

/// `10^digits`, where it is a `u64` value.
pub fn checked_pow10(digits: u32) -> (r: Option<u64>)
    ensures
        pow10(digits as nat) <= u64::MAX as nat ==> r == Some(pow10(digits as nat) as u64),
        pow10(digits as nat) > u64::MAX as nat ==> r is None,
{
    let mut value: u64 = 1;
    let mut done: u32 = 0;
    while done < digits
        invariant
            done <= digits,
            value as nat == pow10(done as nat),
        decreases digits - done,
    {
        value = match value.checked_mul(10) {
            Some(v) => v,
            None => {
                proof {
                    lemma_pow10_grows((done + 1) as nat, digits as nat);
                }
                return None;
            },
        };
        done += 1;
    }
    Some(value)
}

pub proof fn lemma_pow10_positive(k: nat)
    ensures
        pow10(k) >= 1,
    decreases k,
{
    if k > 0 {
        lemma_pow10_positive((k - 1) as nat);
    }
}

/// A higher power of ten is no smaller.
pub proof fn lemma_pow10_grows(j: nat, k: nat)
    requires
        j <= k,
    ensures
        pow10(j) <= pow10(k),
    decreases k,
{
    if j < k {
        lemma_pow10_grows(j, (k - 1) as nat);
        lemma_pow10_positive((k - 1) as nat);
    }
}

} // verus!
