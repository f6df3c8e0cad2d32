//! The endpoints for cost bearers.

use vstd::prelude::*;
use crate::api::error_code::{removal_reply, reply_to_removal};
use crate::domain::cost_bearer::CostBearer;
use crate::identifier::EntityId;
use crate::service::application_error::ApplicationError;
use crate::service::cost_bearer::{
    CostBearerNew,
    CostBearerReadPort,
    CostBearerService,
    CostBearerWritePort,
};

verus! {

/// Creates a cost bearer from the raw values of a request: the service's
/// answer to `create`, unchanged.
pub fn cost_bearer_post<R: CostBearerReadPort, W: CostBearerWritePort>(
    service: &CostBearerService<R, W>,
    entry: CostBearerNew,
) -> (res: Result<CostBearer, ApplicationError>)
    ensures
        service.create_outcome(entry, res),
{
    service.create(entry)
}

/// Replaces the cost bearer under `id` by the raw values of a request: the
/// service's answer to `update`, unchanged.
pub fn cost_bearer_update<R: CostBearerReadPort, W: CostBearerWritePort>(
    service: &CostBearerService<R, W>,
    id: EntityId,
    entry: CostBearerNew,
) -> (res: Result<CostBearer, ApplicationError>)
    ensures
        service.update_outcome(id, entry, res),
{
    service.update(id, entry)
}

/// Removes the cost bearer under `id`. A removal that took place is answered
/// with the status for no content, any other with the service's error.
pub fn cost_bearer_delete<R: CostBearerReadPort, W: CostBearerWritePort>(
    service: &CostBearerService<R, W>,
    id: EntityId,
) -> (res: Result<u16, ApplicationError>)
    ensures
        exists|outcome: Result<(), ApplicationError>|
            #[trigger] service.write_repo.delete_outcome(id, outcome) && res == removal_reply(
                outcome,
            ),
{
    reply_to_removal(service.delete(id))
}

/// Reads the cost bearer under `id`: the service's answer to `get`,
/// unchanged.
pub fn cost_bearer_get<R: CostBearerReadPort, W: CostBearerWritePort>(
    service: &CostBearerService<R, W>,
    id: EntityId,
) -> (res: Result<CostBearer, ApplicationError>)
    ensures
        service.read_repo.get_outcome(id, res),
{
    service.get(id)
}

} // verus!
