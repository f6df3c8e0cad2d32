//! The placeholder store of expense entries.

use vstd::prelude::*;
use crate::domain::cost_share::{Amount, CostShare};
use crate::domain::expense_entry::{
    first_share_error,
    occurs_before,
    share_error_at,
    ExpenseEntry,
};
use crate::identifier::EntityId;
use crate::repository::sqliterepository::KNOWN_RECORD_ID;
use crate::service::application_error::{not_found, ApplicationError};
use crate::service::expense_entry::{ExpenseEntryReadPort, ExpenseEntryWritePort};
use crate::text::is_white_space;

verus! {

/// The bit pattern of the amount 12.5.
pub const KNOWN_ENTRY_AMOUNT_BITS: u64 = 0x4029_0000_0000_0000;

/// Reads from the placeholder store of expense entries.
pub struct ExpenseEntryReadSqliteRepository {}

/// Writes to the placeholder store of expense entries.
pub struct ExpenseEntryWriteSqliteRepository {}

impl ExpenseEntryReadSqliteRepository {
    pub fn new() -> Self {
        ExpenseEntryReadSqliteRepository {  }
    }
}

impl ExpenseEntryWriteSqliteRepository {
    pub fn new() -> Self {
        ExpenseEntryWriteSqliteRepository {  }
    }
}

/// The message of a lookup of an expense entry that is not on record.
pub open spec fn expense_entry_not_found_message() -> Seq<char> {
    "Expense entry not found."@
}

fn expense_entry_not_found() -> (error: ApplicationError)
    ensures
        error@ == not_found(expense_entry_not_found_message()),
{
    ApplicationError::not_found("Expense entry not found.")
}

impl ExpenseEntryReadPort for ExpenseEntryReadSqliteRepository {
    /// Under the known identifier stands the one expense entry of the
    /// store: one share of 12.5, each time dated with the current time and
    /// under fresh identifiers for itself, its bearer and its type; every
    /// other identifier is not found.
    open spec fn get_outcome(
        &self,
        id: EntityId,
        res: Result<ExpenseEntry, ApplicationError>,
    ) -> bool {
        if id.value == KNOWN_RECORD_ID {
            &&& res matches Ok(entry)
            &&& entry@.cost_shares.len() == 1
            &&& entry@.cost_shares[0].amount.bits == KNOWN_ENTRY_AMOUNT_BITS
            &&& !entry@.cost_shares[0].cost_bearer_id.is_nil_spec()
            &&& !entry@.expense_type.is_nil_spec()
            &&& entry@.description == "Some Description"@
            &&& entry@.well_formed()
            &&& !entry@.id.is_nil_spec()
        } else {
            res matches Err(error) && error@ == not_found(expense_entry_not_found_message())
        }
    }

    fn get(&self, id: EntityId) -> (res: Result<ExpenseEntry, ApplicationError>) {
        if id.as_u128() == KNOWN_RECORD_ID {
            let cost_shares = vec![
                CostShare {
                    cost_bearer_id: EntityId::generate(),
                    amount: Amount::from_bits(KNOWN_ENTRY_AMOUNT_BITS),
                },
            ];
            proof {
                reveal_strlit("Some Description");
                assert(!is_white_space("Some Description"@[0]));
                assert(!occurs_before(cost_shares@, 0, cost_shares@[0].cost_bearer_id));
                assert(share_error_at(cost_shares@, 0) is None);
                reveal_with_fuel(first_share_error, 2);
            }
            Ok(
                ExpenseEntry::new(
                    cost_shares,
                    EntityId::generate(),
                    "Some Description".to_string(),
                    None,
                ).unwrap(),
            )
        } else {
            Err(expense_entry_not_found())
        }
    }
}

impl ExpenseEntryWritePort for ExpenseEntryWriteSqliteRepository {
    /// What is given is handed back, and nothing is kept.
    open spec fn insert_outcome(
        &self,
        entry: ExpenseEntry,
        res: Result<ExpenseEntry, ApplicationError>,
    ) -> bool {
        res == Ok::<ExpenseEntry, ApplicationError>(entry)
    }

    /// Under the known identifier what is given is handed back; every other
    /// identifier is not found.
    open spec fn update_outcome(
        &self,
        id: EntityId,
        entry: ExpenseEntry,
        res: Result<ExpenseEntry, ApplicationError>,
    ) -> bool {
        if id.value == KNOWN_RECORD_ID {
            res == Ok::<ExpenseEntry, ApplicationError>(entry)
        } else {
            res matches Err(error) && error@ == not_found(expense_entry_not_found_message())
        }
    }

    /// The known identifier can be removed, any number of times; every
    /// other identifier is not found.
    open spec fn delete_outcome(&self, id: EntityId, res: Result<(), ApplicationError>) -> bool {
        if id.value == KNOWN_RECORD_ID {
            res is Ok
        } else {
            res matches Err(error) && error@ == not_found(expense_entry_not_found_message())
        }
    }

    fn insert(&self, entry: ExpenseEntry) -> (res: Result<ExpenseEntry, ApplicationError>) {
        Ok(entry)
    }

    fn update(&self, id: EntityId, entry: ExpenseEntry) -> (res: Result<
        ExpenseEntry,
        ApplicationError,
    >) {
        if id.as_u128() == KNOWN_RECORD_ID {
            Ok(entry)
        } else {
            Err(expense_entry_not_found())
        }
    }

    fn delete(&self, id: EntityId) -> (res: Result<(), ApplicationError>) {
        if id.as_u128() == KNOWN_RECORD_ID {
            Ok(())
        } else {
            Err(expense_entry_not_found())
        }
    }
}

} // verus!
