//! The services: validation, one call to a persistence port, and failures
//! turned into application errors.

pub mod application_error;
pub mod cost_bearer;
pub mod expense_entry;
pub mod expense_type;
