//! Generations and transactions: the atomic, roll-back-able history of what is
//! installed.

pub mod paths;
pub mod error;
pub mod plan;
pub mod generation;
pub mod trx;
