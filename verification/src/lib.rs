//! Validation and service core of a shared-expense ledger.
//!
//! The crate records who bears what cost, under which category an expense
//! falls, and how its amount is split. Every entity is built by a validating
//! constructor, so an invalid record never exists in memory; the services
//! sequence validation and one call to a persistence port, and turn every
//! failure into a uniform application error.

pub mod api;
pub mod domain;
pub mod identifier;
pub mod repository;
pub mod service;
pub mod text;
pub mod timestamp;
