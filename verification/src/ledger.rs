//! What a transaction on the ledger can end in, and the amount arithmetic of
//! vaults and buckets.
//!
//! A vault or a bucket is held by its amount. An aborted transaction leaves
//! every component as it was, so each operation of the library either returns
//! the new state or an error and no change.
use crate::decimal::{dec_add, dec_div, dec_mul, dec_sub, Dec};
use crate::radix::{dec_checked_add, dec_checked_div, dec_checked_mul, dec_checked_sub};
use vstd::prelude::*;

verus! {

/// Why a transaction aborts.
#[derive(Debug, Clone, Copy, PartialEq, Eq, Structural)]
pub enum TxError {
    /// Engine arithmetic overflowed or divided by zero.
    Overflow,
    /// A bucket or vault was asked for a negative amount or more than it holds.
    InsufficientResource,
    /// A negative amount of tokens was to be minted.
    InvalidMintAmount,
    /// Tips are refused.
    TipNotAllowed,
    /// A bucket holds another resource than the one the method takes.
    WrongResource,
    /// A fee percentage of 1 or more.
    FeeTooHigh,
    /// The virtual supply is negative or not below the tradable supply.
    InvalidVirtualSupply,
    /// The dex tokens ratio is outside 0.05..=0.95.
    InvalidDexRatio,
    /// Buying the requested amount would pass the tradable supply.
    NotEnoughSupplyLeft,
    /// The curve's token amount passes the tradable supply by more than rounding.
    ReceiveTokensCalcError,
    /// Too little XRD was sent for the requested tokens and fee.
    NotEnoughXrdSent,
    /// The curve's XRD amount passes the maximum XRD by more than rounding.
    MaxXrdExceeded,
    /// Tokens cannot be sold during the fair launch period.
    SellDuringFairLaunch,
    /// More tokens were sent to sell than the current supply.
    SellMoreThanSupply,
    /// The curve's XRD amount passes the component's XRD by more than rounding.
    NotEnoughXrdInComponent,
    /// The component holds too little XRD for the requested amount and fee.
    NotEnoughXrdForAmount,
    /// Fewer tokens were sent than the requested XRD amount needs.
    NotEnoughTokensSupplied,
    /// The tokens to sell pass the current supply by more than rounding.
    NotEnoughSupplyToSell,
    /// Fair launch tokens can be claimed only after the fair launch period.
    FairLaunchNotFinished,
    /// First buy tokens are still locked.
    FirstBuyLocked,
    /// The token can be listed only once its target is reached.
    TargetNotReached,
    /// The token is already listed.
    AlreadyListed,
    /// The token is not listed.
    NotListed,
    /// A dex adaptor must be set.
    NoDexAdaptor,
    /// The listing token's vault is missing.
    NoListingTokens,
    /// A name and a symbol must be given.
    MissingNameOrSymbol,
    /// The creator's first buy is above the allowed share.
    FirstBuyTooHigh,
    /// The creator's lock period is below the default.
    LockPeriodTooShort,
    /// No curve calculator is registered under the name.
    UnknownCurve,
    /// No dex adaptor is registered under the name.
    UnknownDex,
    /// A dex adaptor needs a name.
    MissingDexName,
    /// The parameter name is not one of the defaults.
    UnknownParameter,
    /// The parameter's value does not parse.
    InvalidParameterValue,
    /// The fee vault holds less than asked for.
    NotEnoughFees,
}

/// An optional engine result, with `None` read as an overflow.
pub open spec fn lift(o: Option<int>) -> Result<int, TxError> {
    match o {
        Some(v) => Ok(v),
        None => Err(TxError::Overflow),
    }
}

/// A fallible amount read as its value.
pub open spec fn res_val(r: Result<Dec, TxError>) -> Result<int, TxError> {
    match r {
        Ok(d) => Ok(d.val()),
        Err(e) => Err(e),
    }
}

/// `a + b`, aborting on overflow.
pub fn plus(a: Dec, b: Dec) -> (r: Result<Dec, TxError>)
    ensures
        res_val(r) == lift(dec_add(a.val(), b.val())),
{
    match dec_checked_add(a, b) {
        Some(c) => Ok(c),
        None => Err(TxError::Overflow),
    }
}

/// `a - b`, aborting on overflow.
pub fn minus(a: Dec, b: Dec) -> (r: Result<Dec, TxError>)
    ensures
        res_val(r) == lift(dec_sub(a.val(), b.val())),
{
    match dec_checked_sub(a, b) {
        Some(c) => Ok(c),
        None => Err(TxError::Overflow),
    }
}

/// `a * b`, aborting on overflow.
pub fn times(a: Dec, b: Dec) -> (r: Result<Dec, TxError>)
    ensures
        res_val(r) == lift(dec_mul(a.val(), b.val())),
{
    match dec_checked_mul(a, b) {
        Some(c) => Ok(c),
        None => Err(TxError::Overflow),
    }
}

/// `a / b`, aborting on overflow or a zero divisor.
pub fn divide(a: Dec, b: Dec) -> (r: Result<Dec, TxError>)
    ensures
        res_val(r) == lift(dec_div(a.val(), b.val())),
{
    match dec_checked_div(a, b) {
        Some(c) => Ok(c),
        None => Err(TxError::Overflow),
    }
}

/// What is left after taking `x` out of a holding of `held`.
pub open spec fn s_take(held: int, x: int) -> Result<int, TxError> {
    if 0 <= x <= held {
        Ok(held - x)
    } else {
        Err(TxError::InsufficientResource)
    }
}

/// Takes `x` out of a bucket or vault holding `held`: refused for a negative
/// amount or more than is held.
pub fn take(held: Dec, x: Dec) -> (r: Result<Dec, TxError>)
    ensures
        res_val(r) == s_take(held.val(), x.val()),
{
    if x.is_negative() || x.gt(&held) {
        return Err(TxError::InsufficientResource);
    }
    match dec_checked_sub(held, x) {
        Some(c) => Ok(c),
        None => Err(TxError::Overflow),
    }
}

} // verus!
