//! The endpoints for expense types.

use vstd::prelude::*;
use crate::api::error_code::{removal_reply, reply_to_removal};
use crate::domain::expense_type::ExpenseType;
use crate::identifier::EntityId;
use crate::service::application_error::ApplicationError;
use crate::service::expense_type::{
    ExpenseTypeNew,
    ExpenseTypeReadPort,
    ExpenseTypeService,
    ExpenseTypeWritePort,
};

verus! {

/// Creates an expense type from the raw values of a request: the service's
/// answer to `create`, unchanged.
pub fn expense_type_post<R: ExpenseTypeReadPort, W: ExpenseTypeWritePort>(
    service: &ExpenseTypeService<R, W>,
    entry: ExpenseTypeNew,
) -> (res: Result<ExpenseType, ApplicationError>)
    ensures
        service.create_outcome(entry, res),
{
    service.create(entry)
}

/// Replaces the expense type under `id` by the raw values of a request: the
/// service's answer to `update`, unchanged.
pub fn expense_type_update<R: ExpenseTypeReadPort, W: ExpenseTypeWritePort>(
    service: &ExpenseTypeService<R, W>,
    id: EntityId,
    entry: ExpenseTypeNew,
) -> (res: Result<ExpenseType, ApplicationError>)
    ensures
        service.update_outcome(id, entry, res),
{
    service.update(id, entry)
}

/// Removes the expense type under `id`. A removal that took place is answered
/// with the status for no content, any other with the service's error.
pub fn expense_type_delete<R: ExpenseTypeReadPort, W: ExpenseTypeWritePort>(
    service: &ExpenseTypeService<R, W>,
    id: EntityId,
) -> (res: Result<u16, ApplicationError>)
    ensures
        exists|outcome: Result<(), ApplicationError>|
            #[trigger] service.write_repo.delete_outcome(id, outcome) && res == removal_reply(
                outcome,
            ),
{
    reply_to_removal(service.delete(id))
}

/// Reads the expense type under `id`: the service's answer to `get`,
/// unchanged.
pub fn expense_type_get<R: ExpenseTypeReadPort, W: ExpenseTypeWritePort>(
    service: &ExpenseTypeService<R, W>,
    id: EntityId,
) -> (res: Result<ExpenseType, ApplicationError>)
    ensures
        service.read_repo.get_outcome(id, res),
{
    service.get(id)
}

} // verus!
