use vstd::prelude::*;

verus! {

/// Every way an operation of the engine can be rejected.
#[derive(Clone, Copy, Debug, PartialEq, Eq, Structural)]
pub enum ErrorCode {
    /// The caller is not allowed to perform the action.
    Unauthorized,
    /// The instruction is not valid for the accounts it was given.
    Invalid,
    /// The configuration has already been initialised.
    ReInitialize,
    /// The configuration has not been initialised.
    UnInitialize,
    /// An argument is invalid.
    InvalidArgument,
    /// A checked arithmetic step left the integer domain.
    Overflow,
    /// The pull oracle reported an internal error.
    PythError,
    /// The pull oracle has no fresh price.
    PythOffline,
    /// A price account must never be serialised.
    TryToSerializePriceAccount,
    /// The contract has reached its maturity.
    ContractEnded,
    /// The contract is halted for trading and depositing.
    ContractHalted,
    /// The contract is halted for depositing.
    ContractDepositHalted,
    /// The contract is halted for trading.
    ContractTradingHalted,
    /// More units were closed than the position holds.
    ClosePositionBiggerThanOpened,
    /// Maturity has not been reached yet.
    MaturityNotReached,
    /// The contract is already settling.
    AlreadySettling,
    /// The position would hold less collateral than its short exposure needs.
    ShortLeaveUnhealthy,
    /// A short position must be closed before a long one is opened.
    CloseShortBeforeLong,
    /// A long position must be closed before a short one is opened.
    CloseLongBeforeShort,
    /// The platform would hold less collateral than its issued units need.
    PlatformUnhealthy,
    /// The contract is not settling.
    NotSettling,
    /// The contract is settling.
    IsSettling,
    /// A custody balance disagrees with the ledger.
    ErrorAccounting,
    /// The free collateral account lost value.
    LeakInFAccount,
    /// The feed kind is unknown.
    InvalidFeedType,
    /// The aggregator account is not a valid feed account.
    InvalidSwitchboardAccount,
    /// The aggregator feed has not been updated recently enough.
    StaleFeed,
    /// The aggregator feed exceeded the confidence interval.
    ConfidenceIntervalExceeded,
    /// The feed is not the one the contract was created with.
    InvalidOraclefeed,
    /// The action is only available in test mode.
    NoTestInProd,
}

} // verus!
