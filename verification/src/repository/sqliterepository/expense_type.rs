//! The placeholder store of expense types.

use vstd::prelude::*;
use crate::domain::expense_type::ExpenseType;
use crate::identifier::EntityId;
use crate::repository::sqliterepository::KNOWN_RECORD_ID;
use crate::service::application_error::{not_found, ApplicationError};
use crate::service::expense_type::{ExpenseTypeReadPort, ExpenseTypeWritePort};
use crate::text::is_white_space;

verus! {

/// Reads from the placeholder store of expense types.
pub struct ExpenseTypeReadSqliteRepository {}

/// Writes to the placeholder store of expense types.
pub struct ExpenseTypeWriteSqliteRepository {}

impl ExpenseTypeReadSqliteRepository {
    pub fn new() -> Self {
        ExpenseTypeReadSqliteRepository {  }
    }
}

impl ExpenseTypeWriteSqliteRepository {
    pub fn new() -> Self {
        ExpenseTypeWriteSqliteRepository {  }
    }
}

/// The message of a lookup of an expense type that is not on record.
pub open spec fn expense_type_not_found_message() -> Seq<char> {
    "Expense type not found."@
}

fn expense_type_not_found() -> (error: ApplicationError)
    ensures
        error@ == not_found(expense_type_not_found_message()),
{
    ApplicationError::not_found("Expense type not found.")
}

impl ExpenseTypeReadPort for ExpenseTypeReadSqliteRepository {
    /// Under the known identifier stands the one expense type of the store,
    /// each time under a fresh identifier of its own; every other
    /// identifier is not found.
    open spec fn get_outcome(
        &self,
        id: EntityId,
        res: Result<ExpenseType, ApplicationError>,
    ) -> bool {
        if id.value == KNOWN_RECORD_ID {
            &&& res matches Ok(expense_type)
            &&& expense_type@.name == "Food"@
            &&& expense_type@.description == "Expenses related to food and dining"@
            &&& expense_type@.well_formed()
            &&& !expense_type@.id.is_nil_spec()
        } else {
            res matches Err(error) && error@ == not_found(expense_type_not_found_message())
        }
    }

    fn get(&self, id: EntityId) -> (res: Result<ExpenseType, ApplicationError>) {
        if id.as_u128() == KNOWN_RECORD_ID {
            proof {
                reveal_strlit("Food");
                reveal_strlit("Expenses related to food and dining");
                assert(!is_white_space("Food"@[0]));
                assert(!is_white_space("Expenses related to food and dining"@[0]));
            }
            Ok(
                ExpenseType::new(
                    "Food".to_string(),
                    "Expenses related to food and dining".to_string(),
                ).unwrap(),
            )
        } else {
            Err(expense_type_not_found())
        }
    }
}

impl ExpenseTypeWritePort for ExpenseTypeWriteSqliteRepository {
    /// What is given is handed back, and nothing is kept.
    open spec fn insert_outcome(
        &self,
        entry: ExpenseType,
        res: Result<ExpenseType, ApplicationError>,
    ) -> bool {
        res == Ok::<ExpenseType, ApplicationError>(entry)
    }

    /// Under the known identifier what is given is handed back; every other
    /// identifier is not found.
    open spec fn update_outcome(
        &self,
        id: EntityId,
        entry: ExpenseType,
        res: Result<ExpenseType, ApplicationError>,
    ) -> bool {
        if id.value == KNOWN_RECORD_ID {
            res == Ok::<ExpenseType, ApplicationError>(entry)
        } else {
            res matches Err(error) && error@ == not_found(expense_type_not_found_message())
        }
    }

    /// The known identifier can be removed, any number of times; every
    /// other identifier is not found.
    open spec fn delete_outcome(&self, id: EntityId, res: Result<(), ApplicationError>) -> bool {
        if id.value == KNOWN_RECORD_ID {
            res is Ok
        } else {
            res matches Err(error) && error@ == not_found(expense_type_not_found_message())
        }
    }

    fn insert(&self, entry: ExpenseType) -> (res: Result<ExpenseType, ApplicationError>) {
        Ok(entry)
    }

    fn update(&self, id: EntityId, entry: ExpenseType) -> (res: Result<
        ExpenseType,
        ApplicationError,
    >) {
        if id.as_u128() == KNOWN_RECORD_ID {
            Ok(entry)
        } else {
            Err(expense_type_not_found())
        }
    }

    fn delete(&self, id: EntityId) -> (res: Result<(), ApplicationError>) {
        if id.as_u128() == KNOWN_RECORD_ID {
            Ok(())
        } else {
            Err(expense_type_not_found())
        }
    }
}

} // verus!
