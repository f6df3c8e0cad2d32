//! Creating, replacing, removing and reading expense types.

use std::sync::Arc;
use vstd::prelude::*;
use crate::domain::expense_type::{
    expense_type_violation,
    ExpenseType,
    ExpenseTypeValidationError,
    ExpenseTypeView,
};
use crate::identifier::EntityId;
use crate::service::application_error::{validation_failed, ApplicationError};

verus! {

/// The raw values from which an expense type is to be made. Nothing is
/// known of them.
#[derive(Debug)]
pub struct ExpenseTypeNew {
    pub name: String,
    pub description: String,
}

impl ExpenseTypeNew {
    /// The first rule that the raw values break, if any.
    pub open spec fn violation(&self) -> Option<ExpenseTypeValidationError> {
        expense_type_violation(self.name@, self.description@)
    }

    /// Whether `expense_type` has the raw values as its fields.
    pub open spec fn describes(&self, expense_type: ExpenseTypeView) -> bool {
        &&& expense_type.name == self.name@
        &&& expense_type.description == self.description@
    }
}

impl TryFrom<ExpenseTypeNew> for ExpenseType {
    type Error = ExpenseTypeValidationError;

    /// Validates the raw values into an expense type with a fresh
    /// identifier.
    fn try_from(value: ExpenseTypeNew) -> (res: Result<Self, ExpenseTypeValidationError>)
        ensures
            match value.violation() {
                Some(e) => res == Err::<Self, ExpenseTypeValidationError>(e),
                None => res is Ok,
            },
            res matches Ok(expense_type) ==> {
                &&& value.describes(expense_type@)
                &&& expense_type@.well_formed()
                &&& !expense_type@.id.is_nil_spec()
            },
    {
        ExpenseType::new(value.name, value.description)
    }
}

/// The conversion draws a fresh identifier, so its result is no function of
/// the raw values: what it returns is stated on `try_from` itself.
impl vstd::std_specs::convert::TryFromSpecImpl<ExpenseTypeNew> for ExpenseType {
    open spec fn obeys_try_from_spec() -> bool {
        false
    }

    open spec fn try_from_spec(v: ExpenseTypeNew) -> Result<Self, ExpenseTypeValidationError> {
        arbitrary()
    }
}

/// The message under which a broken rule of an expense type is reported.
pub open spec fn expense_type_error_message(err: ExpenseTypeValidationError) -> Seq<char> {
    match err {
        ExpenseTypeValidationError::MissingName => "Json without valid name."@,
        ExpenseTypeValidationError::MissingDescription => "Json without valid description."@,
        ExpenseTypeValidationError::DuplicateName => "Expense type with this name already exists."@,
    }
}

impl From<ExpenseTypeValidationError> for ApplicationError {
    /// Every broken rule is a failed validation under its fixed message.
    fn from(err: ExpenseTypeValidationError) -> (error: Self)
        ensures
            error@ == validation_failed(expense_type_error_message(err)),
    {
        match err {
            ExpenseTypeValidationError::MissingName => ApplicationError::validation_failed(
                "Json without valid name.",
            ),
            ExpenseTypeValidationError::MissingDescription => ApplicationError::validation_failed(
                "Json without valid description.",
            ),
            ExpenseTypeValidationError::DuplicateName => ApplicationError::validation_failed(
                "Expense type with this name already exists.",
            ),
        }
    }
}

/// An application error holds a text, of which only the characters are
/// known: what the conversion returns is stated on `from` itself.
impl vstd::std_specs::convert::FromSpecImpl<ExpenseTypeValidationError> for ApplicationError {
    open spec fn obeys_from_spec() -> bool {
        false
    }

    open spec fn from_spec(v: ExpenseTypeValidationError) -> Self {
        arbitrary()
    }
}

/// Reading expense types from a store.
pub trait ExpenseTypeReadPort {
    /// Whether `res` is an answer of this store to `get(id)`. A store that
    /// states nothing admits every answer.
    open spec fn get_outcome(
        &self,
        id: EntityId,
        res: Result<ExpenseType, ApplicationError>,
    ) -> bool {
        true
    }

    /// The expense type on record under `id`, or the failed lookup.
    fn get(&self, id: EntityId) -> (res: Result<ExpenseType, ApplicationError>)
        ensures
            self.get_outcome(id, res),
    ;
}

/// Changing the expense types of a store.
pub trait ExpenseTypeWritePort {
    /// Whether `res` is an answer of this store to `insert(entry)`. A store
    /// that states nothing admits every answer.
    open spec fn insert_outcome(
        &self,
        entry: ExpenseType,
        res: Result<ExpenseType, ApplicationError>,
    ) -> bool {
        true
    }

    /// Whether `res` is an answer of this store to `update(id, entry)`. A
    /// store that states nothing admits every answer.
    open spec fn update_outcome(
        &self,
        id: EntityId,
        entry: ExpenseType,
        res: Result<ExpenseType, ApplicationError>,
    ) -> bool {
        true
    }

    /// Whether `res` is an answer of this store to `delete(id)`. A store
    /// that states nothing admits every answer.
    open spec fn delete_outcome(&self, id: EntityId, res: Result<(), ApplicationError>) -> bool {
        true
    }

    /// Puts `entry` on record and hands back what was recorded.
    fn insert(&self, entry: ExpenseType) -> (res: Result<ExpenseType, ApplicationError>)
        ensures
            self.insert_outcome(entry, res),
    ;

    /// Replaces the record under `id` by `entry` and hands back what was
    /// recorded, or the failed lookup.
    fn update(&self, id: EntityId, entry: ExpenseType) -> (res: Result<
        ExpenseType,
        ApplicationError,
    >)
        ensures
            self.update_outcome(id, entry, res),
    ;

    /// Removes the record under `id`, or reports the failed lookup.
    fn delete(&self, id: EntityId) -> (res: Result<(), ApplicationError>)
        ensures
            self.delete_outcome(id, res),
    ;
}

/// The service for expense types. It shares its two ports with whoever
/// else holds them.
pub struct ExpenseTypeService<R: ExpenseTypeReadPort, W: ExpenseTypeWritePort> {
    pub read_repo: Arc<R>,
    pub write_repo: Arc<W>,
}

impl<R: ExpenseTypeReadPort, W: ExpenseTypeWritePort> Clone for ExpenseTypeService<R, W> {
    fn clone(&self) -> (service: Self)
        ensures
            service == *self,
    {
        ExpenseTypeService {
            read_repo: self.read_repo.clone(),
            write_repo: self.write_repo.clone(),
        }
    }
}

impl<R: ExpenseTypeReadPort, W: ExpenseTypeWritePort> ExpenseTypeService<R, W> {
    /// The service over the two ports.
    pub fn new(read_repo: Arc<R>, write_repo: Arc<W>) -> (service: Self)
        ensures
            service.read_repo == read_repo,
            service.write_repo == write_repo,
    {
        ExpenseTypeService { read_repo, write_repo }
    }

    /// Whether `res` is an answer of the service to `create(dto)`: the
    /// failed validation of the first rule that the raw values break, or
    /// else the store's answer to the insertion of an expense type that has
    /// the raw values as its fields and an identifier that is not nil.
    pub open spec fn create_outcome(
        &self,
        dto: ExpenseTypeNew,
        res: Result<ExpenseType, ApplicationError>,
    ) -> bool {
        match dto.violation() {
            Some(e) => res matches Err(error) && error@ == validation_failed(
                expense_type_error_message(e),
            ),
            None => exists|entry: ExpenseType|
                {
                    &&& dto.describes(entry@)
                    &&& entry@.well_formed()
                    &&& !entry@.id.is_nil_spec()
                    &&& #[trigger] self.write_repo.insert_outcome(entry, res)
                },
        }
    }

    /// Whether `res` is an answer of the service to `update(id, dto)`: the
    /// failed validation of the first rule that the raw values break, or
    /// else the store's answer to the replacement of the record under `id`
    /// by an expense type that has the raw values as its fields.
    pub open spec fn update_outcome(
        &self,
        id: EntityId,
        dto: ExpenseTypeNew,
        res: Result<ExpenseType, ApplicationError>,
    ) -> bool {
        match dto.violation() {
            Some(e) => res matches Err(error) && error@ == validation_failed(
                expense_type_error_message(e),
            ),
            None => exists|entry: ExpenseType|
                {
                    &&& dto.describes(entry@)
                    &&& entry@.well_formed()
                    &&& !entry@.id.is_nil_spec()
                    &&& #[trigger] self.write_repo.update_outcome(id, entry, res)
                },
        }
    }

    /// Validates the raw values and puts the new expense type on record.
    ///
    /// Values that break a rule are answered with the failed validation of
    /// the first rule they break, and the store is not asked. Otherwise the
    /// answer is the store's answer to the insertion of an expense type
    /// that has the raw values as its fields and an identifier that is not
    /// nil.
    pub fn create(&self, dto: ExpenseTypeNew) -> (res: Result<ExpenseType, ApplicationError>)
        ensures
            self.create_outcome(dto, res),
    {
        let entry = match ExpenseType::try_from(dto) {
            Ok(entry) => entry,
            Err(e) => {
                return Err(ApplicationError::from(e));
            },
        };
        let ghost recorded = entry;
        let res = self.write_repo.insert(entry);
        assert(self.write_repo.insert_outcome(recorded, res));
        res
    }

    /// Validates the raw values and replaces the record under `id` by the
    /// expense type made of them. Validation comes first: values that break
    /// a rule are answered with the failed validation whether or not `id`
    /// is on record, and the store is not asked.
    pub fn update(&self, id: EntityId, dto: ExpenseTypeNew) -> (res: Result<
        ExpenseType,
        ApplicationError,
    >)
        ensures
            self.update_outcome(id, dto, res),
    {
        let entry = match ExpenseType::try_from(dto) {
            Ok(entry) => entry,
            Err(e) => {
                return Err(ApplicationError::from(e));
            },
        };
        let ghost recorded = entry;
        let res = self.write_repo.update(id, entry);
        assert(self.write_repo.update_outcome(id, recorded, res));
        res
    }

    /// Removes the record under `id`: the store's answer, unchanged.
    pub fn delete(&self, id: EntityId) -> (res: Result<(), ApplicationError>)
        ensures
            self.write_repo.delete_outcome(id, res),
    {
        self.write_repo.delete(id)
    }

    /// The expense type on record under `id`: the store's answer,
    /// unchanged.
    pub fn get(&self, id: EntityId) -> (res: Result<ExpenseType, ApplicationError>)
        ensures
            self.read_repo.get_outcome(id, res),
    {
        self.read_repo.get(id)
    }
}

} // verus!
