//! Share-based accounting for a lending pool.
//!
//! Deposits and borrows of each asset are tracked as shares whose exchange
//! rate against the underlying asset floats. All amounts are signed
//! fixed-point numbers with 48 fractional bits; every operation on them is
//! checked and reports overflow instead of wrapping.

pub mod errors;
pub mod fixed_point;
pub mod rounding;
pub mod pubkey;
pub mod bank;
pub mod lending_pool;
pub mod group;
pub mod interest_rate;
pub mod reporting;
