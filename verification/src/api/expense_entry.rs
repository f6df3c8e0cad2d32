//! The endpoints for expense entries.

use vstd::prelude::*;
use crate::api::error_code::{removal_reply, reply_to_removal};
use crate::domain::expense_entry::ExpenseEntry;
use crate::identifier::EntityId;
use crate::service::application_error::ApplicationError;
use crate::service::expense_entry::{
    ExpenseEntryNew,
    ExpenseEntryReadPort,
    ExpenseEntryService,
    ExpenseEntryWritePort,
};

verus! {

/// Creates an expense entry from the raw values of a request: the service's
/// answer to `create`, unchanged.
pub fn expense_entry_post<R: ExpenseEntryReadPort, W: ExpenseEntryWritePort>(
    service: &ExpenseEntryService<R, W>,
    entry: ExpenseEntryNew,
) -> (res: Result<ExpenseEntry, ApplicationError>)
    ensures
        service.create_outcome(entry, res),
{
    service.create(entry)
}

/// Replaces the expense entry under `id` by the raw values of a request: the
/// service's answer to `update`, unchanged.
pub fn expense_entry_update<R: ExpenseEntryReadPort, W: ExpenseEntryWritePort>(
    service: &ExpenseEntryService<R, W>,
    id: EntityId,
    entry: ExpenseEntryNew,
) -> (res: Result<ExpenseEntry, ApplicationError>)
    ensures
        service.update_outcome(id, entry, res),
{
    service.update(id, entry)
}

/// Removes the expense entry under `id`. A removal that took place is answered
/// with the status for no content, any other with the service's error.
pub fn expense_entry_delete<R: ExpenseEntryReadPort, W: ExpenseEntryWritePort>(
    service: &ExpenseEntryService<R, W>,
    id: EntityId,
) -> (res: Result<u16, ApplicationError>)
    ensures
        exists|outcome: Result<(), ApplicationError>|
            #[trigger] service.write_repo.delete_outcome(id, outcome) && res == removal_reply(
                outcome,
            ),
{
    reply_to_removal(service.delete(id))
}

/// Reads the expense entry under `id`: the service's answer to `get`,
/// unchanged.
pub fn expense_entry_get<R: ExpenseEntryReadPort, W: ExpenseEntryWritePort>(
    service: &ExpenseEntryService<R, W>,
    id: EntityId,
) -> (res: Result<ExpenseEntry, ApplicationError>)
    ensures
        service.read_repo.get_outcome(id, res),
{
    service.get(id)
}

} // verus!
