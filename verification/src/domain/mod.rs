//! The entities of the ledger and the rules that every one of them meets.

pub mod cost_bearer;
pub mod cost_share;
pub mod expense_entry;
pub mod expense_type;
