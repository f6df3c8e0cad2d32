//! Stores behind the persistence ports.

pub mod sqliterepository;
