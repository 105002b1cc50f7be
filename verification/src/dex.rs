//! The Ociswap dex adaptor: what it tells the token curves about itself, the
//! pool it creates for a listing, and what it hands back after adding or
//! removing liquidity. The pool calls themselves are the ledger's.
use crate::address::Address;
use crate::decimal::Dec;
use vstd::prelude::*;

verus! {

/// The settings of a new Ociswap flex pool.
#[derive(Clone, Copy, Debug)]
pub struct PoolSettings {
    /// The fee on each swap into the pool.
    pub input_fee_rate: Dec,
    /// The fee on flash loans.
    pub flash_loan_fee_rate: Dec,
    /// The share of the first token in the pool's value.
    pub a_share: Dec,
}

/// The adaptor component.
pub struct DexOciswapAdaptor {
    /// The name it is registered under.
    pub name: String,
    /// Its component address.
    pub address: Address,
}

impl DexOciswapAdaptor {
    /// An adaptor named `name` at `address`.
    pub fn new(name: String, address: Address) -> (r: DexOciswapAdaptor)
        ensures
            r.name@ == name@,
            r.address@ == address@,
    {
        DexOciswapAdaptor { name, address }
    }

    /// Its name.
    pub fn name(&self) -> (r: String)
        ensures
            r@ == self.name@,
    {
        self.name.clone()
    }

    /// Its address.
    pub fn address(&self) -> (r: Address)
        ensures
            r@ == self.address@,
    {
        self.address.copy()
    }

    /// The pool a listing creates: a 0.3% swap fee, a 0.09% flash loan fee,
    /// and the two tokens at equal value (a share of one half).
    pub fn listing_pool_settings(&self) -> (r: PoolSettings)
        ensures
            r.input_fee_rate.val() == 3_000_000_000_000_000,
            r.flash_loan_fee_rate.val() == 900_000_000_000_000,
            r.a_share.val() == 500_000_000_000_000_000,
    {
        PoolSettings {
            input_fee_rate: Dec::from_attos(3_000_000_000_000_000),
            flash_loan_fee_rate: Dec::from_attos(900_000_000_000_000),
            a_share: Dec::from_attos(500_000_000_000_000_000),
        }
    }

    /// The extra buckets handed back after adding liquidity: the pool's
    /// optional second return, if there is one.
    pub fn extra_returns<T>(other: Option<T>) -> (r: Vec<T>)
        ensures
            match other {
                Some(t) => r@ == seq![t],
                None => r@.len() == 0,
            },
    {
        let mut extra: Vec<T> = Vec::new();
        match other {
            Some(t) => extra.push(t),
            None => {},
        }
        extra
    }
}

} // verus!
