use vstd::prelude::*;

verus! {

/// The failure of an operation. No operation fails part way: when one of
/// these comes back, every record it was given is as it was.
#[derive(Clone, Copy, Debug, PartialEq, Eq, Structural)]
pub enum ErrorCode {
    /// The staking pool is paused.
    PoolPaused,
    /// The token is paused.
    TokenPaused,
    /// An amount of zero.
    InvalidAmount,
    /// More is asked to be unstaked than is staked.
    InsufficientStake,
    /// Nothing has accrued to claim.
    NoRewards,
    /// The signer is not the record's authority.
    Unauthorized,
    /// The record exists already.
    AlreadyInitialized,
    /// A token name over the length limit.
    NameTooLong,
    /// A token symbol over the length limit.
    SymbolTooLong,
    /// More decimals than the limit.
    InvalidDecimals,
    /// Minting would take the supply past the largest `u64`.
    SupplyOverflow,
    /// Burning more than the recorded supply.
    SupplyUnderflow,
    /// Minting was disabled for good.
    MintingDisabled,
    /// Burning is disabled.
    BurningDisabled,
    /// The sender is blacklisted.
    AddressBlacklisted,
    /// A sum or product of balances, yields or times does not fit its type.
    Overflow,
    /// A balance would fall below zero.
    Underflow,
}

/// The class of a failure.
#[derive(Clone, Copy, Debug, PartialEq, Eq, Structural)]
pub enum ErrorKind {
    Validation,
    State,
    Authorization,
    Arithmetic,
    BusinessRule,
}

pub open spec fn kind_of(e: ErrorCode) -> ErrorKind {
    match e {
        ErrorCode::InvalidAmount
        | ErrorCode::NameTooLong
        | ErrorCode::SymbolTooLong
        | ErrorCode::InvalidDecimals => ErrorKind::Validation,
        ErrorCode::PoolPaused | ErrorCode::TokenPaused | ErrorCode::AlreadyInitialized => ErrorKind::State,
        ErrorCode::Unauthorized => ErrorKind::Authorization,
        ErrorCode::SupplyOverflow
        | ErrorCode::SupplyUnderflow
        | ErrorCode::Overflow
        | ErrorCode::Underflow => ErrorKind::Arithmetic,
        ErrorCode::InsufficientStake
        | ErrorCode::NoRewards
        | ErrorCode::MintingDisabled
        | ErrorCode::BurningDisabled
        | ErrorCode::AddressBlacklisted => ErrorKind::BusinessRule,
    }
}

impl ErrorCode {
    pub fn kind(&self) -> (r: ErrorKind)
        ensures
            r == kind_of(*self),
    {
        match self {
            ErrorCode::InvalidAmount
            | ErrorCode::NameTooLong
            | ErrorCode::SymbolTooLong
            | ErrorCode::InvalidDecimals => ErrorKind::Validation,
            ErrorCode::PoolPaused | ErrorCode::TokenPaused | ErrorCode::AlreadyInitialized => ErrorKind::State,
            ErrorCode::Unauthorized => ErrorKind::Authorization,
            ErrorCode::SupplyOverflow
            | ErrorCode::SupplyUnderflow
            | ErrorCode::Overflow
            | ErrorCode::Underflow => ErrorKind::Arithmetic,
            ErrorCode::InsufficientStake
            | ErrorCode::NoRewards
            | ErrorCode::MintingDisabled
            | ErrorCode::BurningDisabled
            | ErrorCode::AddressBlacklisted => ErrorKind::BusinessRule,
        }
    }
}

} // verus!
