//! Creating, replacing, removing and reading cost bearers.

use std::sync::Arc;
use vstd::prelude::*;
use crate::domain::cost_bearer::{
    cost_bearer_violation,
    CostBearer,
    CostBearerValidationError,
    CostBearerView,
};
use crate::identifier::EntityId;
use crate::service::application_error::{validation_failed, ApplicationError};
use crate::timestamp::Timestamp;

verus! {

/// The raw values from which a cost bearer is to be made. Nothing is known
/// of them.
#[derive(Debug)]
pub struct CostBearerNew {
    pub name: String,
    pub exists_from: Timestamp,
    pub exists_to: Option<Timestamp>,
}

impl CostBearerNew {
    /// The first rule that the raw values break, if any.
    pub open spec fn violation(&self) -> Option<CostBearerValidationError> {
        cost_bearer_violation(self.name@, self.exists_from, self.exists_to)
    }

    /// Whether `bearer` has the raw values as its fields.
    pub open spec fn describes(&self, bearer: CostBearerView) -> bool {
        &&& bearer.name == self.name@
        &&& bearer.exists_from == self.exists_from
        &&& bearer.exists_to == self.exists_to
    }
}

impl TryFrom<CostBearerNew> for CostBearer {
    type Error = CostBearerValidationError;

    /// Validates the raw values into a cost bearer with a fresh identifier.
    fn try_from(value: CostBearerNew) -> (res: Result<Self, CostBearerValidationError>)
        ensures
            match value.violation() {
                Some(e) => res == Err::<Self, CostBearerValidationError>(e),
                None => res is Ok,
            },
            res matches Ok(bearer) ==> {
                &&& value.describes(bearer@)
                &&& bearer@.well_formed()
                &&& !bearer@.id.is_nil_spec()
            },
    {
        CostBearer::new(value.name, value.exists_from, value.exists_to)
    }
}

/// The conversion draws a fresh identifier, so its result is no function of
/// the raw values: what it returns is stated on `try_from` itself.
impl vstd::std_specs::convert::TryFromSpecImpl<CostBearerNew> for CostBearer {
    open spec fn obeys_try_from_spec() -> bool {
        false
    }

    open spec fn try_from_spec(v: CostBearerNew) -> Result<Self, CostBearerValidationError> {
        arbitrary()
    }
}

/// The message under which a broken rule of a cost bearer is reported.
pub open spec fn cost_bearer_error_message(err: CostBearerValidationError) -> Seq<char> {
    match err {
        CostBearerValidationError::MissingName => "Json without valid name."@,
        CostBearerValidationError::InvalidDate => "Json without valid date."@,
    }
}

impl From<CostBearerValidationError> for ApplicationError {
    /// Every broken rule is a failed validation under its fixed message.
    fn from(err: CostBearerValidationError) -> (error: Self)
        ensures
            error@ == validation_failed(cost_bearer_error_message(err)),
    {
        match err {
            CostBearerValidationError::MissingName => ApplicationError::validation_failed(
                "Json without valid name.",
            ),
            CostBearerValidationError::InvalidDate => ApplicationError::validation_failed(
                "Json without valid date.",
            ),
        }
    }
}

/// An application error holds a text, of which only the characters are
/// known: what the conversion returns is stated on `from` itself.
impl vstd::std_specs::convert::FromSpecImpl<CostBearerValidationError> for ApplicationError {
    open spec fn obeys_from_spec() -> bool {
        false
    }

    open spec fn from_spec(v: CostBearerValidationError) -> Self {
        arbitrary()
    }
}

/// Reading cost bearers from a store.
pub trait CostBearerReadPort {
    /// Whether `res` is an answer of this store to `get(id)`. A store that
    /// states nothing admits every answer.
    open spec fn get_outcome(
        &self,
        id: EntityId,
        res: Result<CostBearer, ApplicationError>,
    ) -> bool {
        true
    }

    /// The cost bearer on record under `id`, or the failed lookup.
    fn get(&self, id: EntityId) -> (res: Result<CostBearer, ApplicationError>)
        ensures
            self.get_outcome(id, res),
    ;
}

/// Changing the cost bearers of a store.
pub trait CostBearerWritePort {
    /// Whether `res` is an answer of this store to `insert(entry)`. A store
    /// that states nothing admits every answer.
    open spec fn insert_outcome(
        &self,
        entry: CostBearer,
        res: Result<CostBearer, ApplicationError>,
    ) -> bool {
        true
    }

    /// Whether `res` is an answer of this store to `update(id, entry)`. A
    /// store that states nothing admits every answer.
    open spec fn update_outcome(
        &self,
        id: EntityId,
        entry: CostBearer,
        res: Result<CostBearer, ApplicationError>,
    ) -> bool {
        true
    }

    /// Whether `res` is an answer of this store to `delete(id)`. A store
    /// that states nothing admits every answer.
    open spec fn delete_outcome(&self, id: EntityId, res: Result<(), ApplicationError>) -> bool {
        true
    }

    /// Puts `entry` on record and hands back what was recorded.
    fn insert(&self, entry: CostBearer) -> (res: Result<CostBearer, ApplicationError>)
        ensures
            self.insert_outcome(entry, res),
    ;

    /// Replaces the record under `id` by `entry` and hands back what was
    /// recorded, or the failed lookup.
    fn update(&self, id: EntityId, entry: CostBearer) -> (res: Result<
        CostBearer,
        ApplicationError,
    >)
        ensures
            self.update_outcome(id, entry, res),
    ;

    /// Removes the record under `id`, or reports the failed lookup.
    fn delete(&self, id: EntityId) -> (res: Result<(), ApplicationError>)
        ensures
            self.delete_outcome(id, res),
    ;
}

/// The service for cost bearers. It shares its two ports with whoever else
/// holds them.
pub struct CostBearerService<R: CostBearerReadPort, W: CostBearerWritePort> {
    pub read_repo: Arc<R>,
    pub write_repo: Arc<W>,
}

impl<R: CostBearerReadPort, W: CostBearerWritePort> Clone for CostBearerService<R, W> {
    fn clone(&self) -> (service: Self)
        ensures
            service == *self,
    {
        CostBearerService {
            read_repo: self.read_repo.clone(),
            write_repo: self.write_repo.clone(),
        }
    }
}

impl<R: CostBearerReadPort, W: CostBearerWritePort> CostBearerService<R, W> {
    /// The service over the two ports.
    pub fn new(read_repo: Arc<R>, write_repo: Arc<W>) -> (service: Self)
        ensures
            service.read_repo == read_repo,
            service.write_repo == write_repo,
    {
        CostBearerService { read_repo, write_repo }
    }

    /// Whether `res` is an answer of the service to `create(dto)`: the
    /// failed validation of the first rule that the raw values break, or
    /// else the store's answer to the insertion of a cost bearer that has
    /// the raw values as its fields and an identifier that is not nil.
    pub open spec fn create_outcome(
        &self,
        dto: CostBearerNew,
        res: Result<CostBearer, ApplicationError>,
    ) -> bool {
        match dto.violation() {
            Some(e) => res matches Err(error) && error@ == validation_failed(
                cost_bearer_error_message(e),
            ),
            None => exists|entry: CostBearer|
                {
                    &&& dto.describes(entry@)
                    &&& entry@.well_formed()
                    &&& !entry@.id.is_nil_spec()
                    &&& #[trigger] self.write_repo.insert_outcome(entry, res)
                },
        }
    }

    /// Whether `res` is an answer of the service to `update(id, dto)`: the
    /// failed validation of the first rule that the raw values break, or
    /// else the store's answer to the replacement of the record under `id`
    /// by a cost bearer that has the raw values as its fields.
    pub open spec fn update_outcome(
        &self,
        id: EntityId,
        dto: CostBearerNew,
        res: Result<CostBearer, ApplicationError>,
    ) -> bool {
        match dto.violation() {
            Some(e) => res matches Err(error) && error@ == validation_failed(
                cost_bearer_error_message(e),
            ),
            None => exists|entry: CostBearer|
                {
                    &&& dto.describes(entry@)
                    &&& entry@.well_formed()
                    &&& !entry@.id.is_nil_spec()
                    &&& #[trigger] self.write_repo.update_outcome(id, entry, res)
                },
        }
    }

    /// Validates the raw values and puts the new cost bearer on record.
    ///
    /// Values that break a rule are answered with the failed validation of
    /// the first rule they break, and the store is not asked. Otherwise the
    /// answer is the store's answer to the insertion of a cost bearer that
    /// has the raw values as its fields and an identifier that is not nil.
    pub fn create(&self, dto: CostBearerNew) -> (res: Result<CostBearer, ApplicationError>)
        ensures
            self.create_outcome(dto, res),
    {
        let entry = match CostBearer::try_from(dto) {
            Ok(entry) => entry,
            Err(e) => {
                return Err(ApplicationError::from(e));
            },
        };
        let ghost recorded = entry;
        let res = self.write_repo.insert(entry);
        assert(self.write_repo.insert_outcome(recorded, res));
        res
    }

    /// Validates the raw values and replaces the record under `id` by the
    /// cost bearer made of them. Validation comes first: values that break
    /// a rule are answered with the failed validation whether or not `id`
    /// is on record, and the store is not asked.
    pub fn update(&self, id: EntityId, dto: CostBearerNew) -> (res: Result<
        CostBearer,
        ApplicationError,
    >)
        ensures
            self.update_outcome(id, dto, res),
    {
        let entry = match CostBearer::try_from(dto) {
            Ok(entry) => entry,
            Err(e) => {
                return Err(ApplicationError::from(e));
            },
        };
        let ghost recorded = entry;
        let res = self.write_repo.update(id, entry);
        assert(self.write_repo.update_outcome(id, recorded, res));
        res
    }

    /// Removes the record under `id`: the store's answer, unchanged.
    pub fn delete(&self, id: EntityId) -> (res: Result<(), ApplicationError>)
        ensures
            self.write_repo.delete_outcome(id, res),
    {
        self.write_repo.delete(id)
    }

    /// The cost bearer on record under `id`: the store's answer, unchanged.
    pub fn get(&self, id: EntityId) -> (res: Result<CostBearer, ApplicationError>)
        ensures
            self.read_repo.get_outcome(id, res),
    {
        self.read_repo.get(id)
    }
}

} // verus!
