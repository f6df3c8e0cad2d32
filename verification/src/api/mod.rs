//! What the transport decides once a request has been read: which service
//! is asked, and which status answers.

pub mod cost_bearer;
pub mod error_code;
pub mod expense_entry;
pub mod expense_type;
pub mod routes;
