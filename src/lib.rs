//! Parallel search for an account or contract address whose bits match a
//! target under a bitmask.

pub mod address;
pub mod crypto;
pub mod strategy;
pub mod worker;
pub mod pool;
