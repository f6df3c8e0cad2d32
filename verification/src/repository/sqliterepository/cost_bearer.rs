//! The placeholder store of cost bearers.

use vstd::prelude::*;
use crate::domain::cost_bearer::CostBearer;
use crate::identifier::EntityId;
use crate::repository::sqliterepository::KNOWN_RECORD_ID;
use crate::service::application_error::{not_found, ApplicationError};
use crate::service::cost_bearer::{CostBearerReadPort, CostBearerWritePort};
use crate::text::is_white_space;
use crate::timestamp::Timestamp;

verus! {

/// 2025-01-01T00:00:00Z, in seconds since the Unix epoch.
pub const KNOWN_BEARER_FROM_SECS: i64 = 1_735_689_600;

/// 2026-01-01T00:00:00Z, in seconds since the Unix epoch.
pub const KNOWN_BEARER_TO_SECS: i64 = 1_767_225_600;

/// Reads from the placeholder store of cost bearers.
pub struct CostBearerReadSqliteRepository {}

/// Writes to the placeholder store of cost bearers.
pub struct CostBearerWriteSqliteRepository {}

impl CostBearerReadSqliteRepository {
    pub fn new() -> Self {
        CostBearerReadSqliteRepository {  }
    }
}

impl CostBearerWriteSqliteRepository {
    pub fn new() -> Self {
        CostBearerWriteSqliteRepository {  }
    }
}

/// The message of a lookup of a cost bearer that is not on record.
pub open spec fn cost_bearer_not_found_message() -> Seq<char> {
    "Cost Bearer not found."@
}

fn cost_bearer_not_found() -> (error: ApplicationError)
    ensures
        error@ == not_found(cost_bearer_not_found_message()),
{
    ApplicationError::not_found("Cost Bearer not found.")
}

impl CostBearerReadPort for CostBearerReadSqliteRepository {
    /// Under the known identifier stands the one cost bearer of the store,
    /// each time under a fresh identifier of its own; every other
    /// identifier is not found.
    open spec fn get_outcome(
        &self,
        id: EntityId,
        res: Result<CostBearer, ApplicationError>,
    ) -> bool {
        if id.value == KNOWN_RECORD_ID {
            &&& res matches Ok(bearer)
            &&& bearer@.name == "Barclays Credit Card"@
            &&& bearer@.exists_from == (Timestamp { secs: KNOWN_BEARER_FROM_SECS, nanos: 0 })
            &&& bearer@.exists_to == Some(Timestamp { secs: KNOWN_BEARER_TO_SECS, nanos: 0 })
            &&& bearer@.well_formed()
            &&& !bearer@.id.is_nil_spec()
        } else {
            res matches Err(error) && error@ == not_found(cost_bearer_not_found_message())
        }
    }

    fn get(&self, id: EntityId) -> (res: Result<CostBearer, ApplicationError>) {
        if id.as_u128() == KNOWN_RECORD_ID {
            proof {
                reveal_strlit("Barclays Credit Card");
                assert(!is_white_space("Barclays Credit Card"@[0]));
            }
            Ok(
                CostBearer::new(
                    "Barclays Credit Card".to_string(),
                    Timestamp::new(KNOWN_BEARER_FROM_SECS, 0),
                    Some(Timestamp::new(KNOWN_BEARER_TO_SECS, 0)),
                ).unwrap(),
            )
        } else {
            Err(cost_bearer_not_found())
        }
    }
}

impl CostBearerWritePort for CostBearerWriteSqliteRepository {
    /// What is given is handed back, and nothing is kept.
    open spec fn insert_outcome(
        &self,
        entry: CostBearer,
        res: Result<CostBearer, ApplicationError>,
    ) -> bool {
        res == Ok::<CostBearer, ApplicationError>(entry)
    }

    /// Under the known identifier what is given is handed back; every other
    /// identifier is not found.
    open spec fn update_outcome(
        &self,
        id: EntityId,
        entry: CostBearer,
        res: Result<CostBearer, ApplicationError>,
    ) -> bool {
        if id.value == KNOWN_RECORD_ID {
            res == Ok::<CostBearer, ApplicationError>(entry)
        } else {
            res matches Err(error) && error@ == not_found(cost_bearer_not_found_message())
        }
    }

    /// The known identifier can be removed, any number of times; every
    /// other identifier is not found.
    open spec fn delete_outcome(&self, id: EntityId, res: Result<(), ApplicationError>) -> bool {
        if id.value == KNOWN_RECORD_ID {
            res is Ok
        } else {
            res matches Err(error) && error@ == not_found(cost_bearer_not_found_message())
        }
    }

    fn insert(&self, entry: CostBearer) -> (res: Result<CostBearer, ApplicationError>) {
        Ok(entry)
    }

    fn update(&self, id: EntityId, entry: CostBearer) -> (res: Result<
        CostBearer,
        ApplicationError,
    >) {
        if id.as_u128() == KNOWN_RECORD_ID {
            Ok(entry)
        } else {
            Err(cost_bearer_not_found())
        }
    }

    fn delete(&self, id: EntityId) -> (res: Result<(), ApplicationError>) {
        if id.as_u128() == KNOWN_RECORD_ID {
            Ok(())
        } else {
            Err(cost_bearer_not_found())
        }
    }
}

} // verus!
