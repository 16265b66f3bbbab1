//! The records of the package databases and the decisions made around them; the
//! SQLite access itself lies with the caller.

pub mod records;
pub mod state;
