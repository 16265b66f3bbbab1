//! fpm: the package manager's formats, plans and generation bookkeeping.

pub mod text;
pub mod compat;
pub mod transaction;
pub mod build;
pub mod db;
