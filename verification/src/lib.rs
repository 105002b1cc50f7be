//! The bonding-curve token launcher: its fixed-point arithmetic, the cs2
//! price curve, the per-token curve component, the parent component that
//! launches tokens and keeps the defaults, the dex adaptor, and the laws that
//! hold of every trade and launch.
pub mod decimal;
pub mod radix;
pub mod address;
pub mod curve;
pub mod ledger;
pub mod token_curve;
pub mod registry;
pub mod launcher;
pub mod dex;
pub mod laws;
pub mod curve_laws;
pub mod price_laws;
pub mod trade_laws;
