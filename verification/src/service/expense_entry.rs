//! Creating, replacing, removing and reading expense entries.

use std::sync::Arc;
use vstd::prelude::*;
use crate::domain::cost_share::CostShare;
use crate::domain::expense_entry::{
    entry_violation,
    ExpenseEntry,
    ExpenseEntryValidationError,
    ExpenseEntryView,
};
use crate::identifier::EntityId;
use crate::service::application_error::{validation_failed, ApplicationError};
use crate::timestamp::Timestamp;

verus! {

/// The raw values from which an expense entry is to be made. Nothing is
/// known of them.
#[derive(Debug)]
pub struct ExpenseEntryNew {
    pub cost_shares: Vec<CostShare>,
    pub expense_type: EntityId,
    pub description: String,
    pub expense_date: Option<Timestamp>,
}

impl ExpenseEntryNew {
    /// The first rule that the raw values break, if any.
    pub open spec fn violation(&self) -> Option<ExpenseEntryValidationError> {
        entry_violation(self.cost_shares@, self.expense_type, self.description@)
    }

    /// Whether `entry` has the raw values as its fields. A date that was
    /// not given leaves the entry's date open.
    pub open spec fn describes(&self, entry: ExpenseEntryView) -> bool {
        &&& entry.cost_shares == self.cost_shares@
        &&& entry.expense_type == self.expense_type
        &&& entry.description == self.description@
        &&& self.expense_date matches Some(date) ==> entry.expense_date == date
    }
}

impl TryFrom<ExpenseEntryNew> for ExpenseEntry {
    type Error = ExpenseEntryValidationError;

    /// Validates the raw values into an expense entry with a fresh
    /// identifier.
    fn try_from(new: ExpenseEntryNew) -> (res: Result<Self, ExpenseEntryValidationError>)
        ensures
            match new.violation() {
                Some(e) => res == Err::<Self, ExpenseEntryValidationError>(e),
                None => res is Ok,
            },
            res matches Ok(entry) ==> {
                &&& new.describes(entry@)
                &&& entry@.well_formed()
                &&& !entry@.id.is_nil_spec()
            },
    {
        ExpenseEntry::new(new.cost_shares, new.expense_type, new.description, new.expense_date)
    }
}

/// The conversion draws a fresh identifier and may read the clock, so its
/// result is no function of the raw values: what it returns is stated on
/// `try_from` itself.
impl vstd::std_specs::convert::TryFromSpecImpl<ExpenseEntryNew> for ExpenseEntry {
    open spec fn obeys_try_from_spec() -> bool {
        false
    }

    open spec fn try_from_spec(v: ExpenseEntryNew) -> Result<Self, ExpenseEntryValidationError> {
        arbitrary()
    }
}

/// The message under which a broken rule of an expense entry is reported.
/// Everything that is wrong with the cost shares goes under one message,
/// and so does everything that is wrong with the expense type.
pub open spec fn expense_entry_error_message(err: ExpenseEntryValidationError) -> Seq<char> {
    match err {
        ExpenseEntryValidationError::DuplicateCostBearerIds(_) => {
            "Json without valid cost shares."@
        },
        ExpenseEntryValidationError::InvalidCostBearerId(_) => "Json without valid cost shares."@,
        ExpenseEntryValidationError::InvalidExpenseTypeId(_) => "Json without valid expense id."@,
        ExpenseEntryValidationError::MissingCostShares => "Json without valid cost shares."@,
        ExpenseEntryValidationError::MalformedCostShares => "Json without valid cost shares."@,
        ExpenseEntryValidationError::MissingExpenseType => "Json without valid expense id."@,
        ExpenseEntryValidationError::MissingDescription => "Json without valid description."@,
    }
}

impl From<ExpenseEntryValidationError> for ApplicationError {
    /// Every broken rule is a failed validation under its fixed message.
    fn from(err: ExpenseEntryValidationError) -> (error: Self)
        ensures
            error@ == validation_failed(expense_entry_error_message(err)),
    {
        match err {
            ExpenseEntryValidationError::DuplicateCostBearerIds(_) => {
                ApplicationError::validation_failed("Json without valid cost shares.")
            },
            ExpenseEntryValidationError::InvalidCostBearerId(_) => {
                ApplicationError::validation_failed("Json without valid cost shares.")
            },
            ExpenseEntryValidationError::InvalidExpenseTypeId(_) => {
                ApplicationError::validation_failed("Json without valid expense id.")
            },
            ExpenseEntryValidationError::MissingCostShares => {
                ApplicationError::validation_failed("Json without valid cost shares.")
            },
            ExpenseEntryValidationError::MalformedCostShares => {
                ApplicationError::validation_failed("Json without valid cost shares.")
            },
            ExpenseEntryValidationError::MissingExpenseType => {
                ApplicationError::validation_failed("Json without valid expense id.")
            },
            ExpenseEntryValidationError::MissingDescription => {
                ApplicationError::validation_failed("Json without valid description.")
            },
        }
    }
}

/// An application error holds a text, of which only the characters are
/// known: what the conversion returns is stated on `from` itself.
impl vstd::std_specs::convert::FromSpecImpl<ExpenseEntryValidationError> for ApplicationError {
    open spec fn obeys_from_spec() -> bool {
        false
    }

    open spec fn from_spec(v: ExpenseEntryValidationError) -> Self {
        arbitrary()
    }
}

/// Reading expense entries from a store.
pub trait ExpenseEntryReadPort {
    /// Whether `res` is an answer of this store to `get(id)`. A store that
    /// states nothing admits every answer.
    open spec fn get_outcome(
        &self,
        id: EntityId,
        res: Result<ExpenseEntry, ApplicationError>,
    ) -> bool {
        true
    }

    /// The expense entry on record under `id`, or the failed lookup.
    fn get(&self, id: EntityId) -> (res: Result<ExpenseEntry, ApplicationError>)
        ensures
            self.get_outcome(id, res),
    ;
}

/// Changing the expense entries of a store.
pub trait ExpenseEntryWritePort {
    /// Whether `res` is an answer of this store to `insert(entry)`. A store
    /// that states nothing admits every answer.
    open spec fn insert_outcome(
        &self,
        entry: ExpenseEntry,
        res: Result<ExpenseEntry, ApplicationError>,
    ) -> bool {
        true
    }

    /// Whether `res` is an answer of this store to `update(id, entry)`. A
    /// store that states nothing admits every answer.
    open spec fn update_outcome(
        &self,
        id: EntityId,
        entry: ExpenseEntry,
        res: Result<ExpenseEntry, ApplicationError>,
    ) -> bool {
        true
    }

    /// Whether `res` is an answer of this store to `delete(id)`. A store
    /// that states nothing admits every answer.
    open spec fn delete_outcome(&self, id: EntityId, res: Result<(), ApplicationError>) -> bool {
        true
    }

    /// Puts `entry` on record and hands back what was recorded.
    fn insert(&self, entry: ExpenseEntry) -> (res: Result<ExpenseEntry, ApplicationError>)
        ensures
            self.insert_outcome(entry, res),
    ;

    /// Replaces the record under `id` by `entry` and hands back what was
    /// recorded, or the failed lookup.
    fn update(&self, id: EntityId, entry: ExpenseEntry) -> (res: Result<
        ExpenseEntry,
        ApplicationError,
    >)
        ensures
            self.update_outcome(id, entry, res),
    ;

    /// Removes the record under `id`, or reports the failed lookup.
    fn delete(&self, id: EntityId) -> (res: Result<(), ApplicationError>)
        ensures
            self.delete_outcome(id, res),
    ;
}

/// The service for expense entries. It shares its two ports with whoever
/// else holds them.
pub struct ExpenseEntryService<R: ExpenseEntryReadPort, W: ExpenseEntryWritePort> {
    pub read_repo: Arc<R>,
    pub write_repo: Arc<W>,
}

impl<R: ExpenseEntryReadPort, W: ExpenseEntryWritePort> Clone for ExpenseEntryService<R, W> {
    fn clone(&self) -> (service: Self)
        ensures
            service == *self,
    {
        ExpenseEntryService {
            read_repo: self.read_repo.clone(),
            write_repo: self.write_repo.clone(),
        }
    }
}

impl<R: ExpenseEntryReadPort, W: ExpenseEntryWritePort> ExpenseEntryService<R, W> {
    /// The service over the two ports.
    pub fn new(read_repo: Arc<R>, write_repo: Arc<W>) -> (service: Self)
        ensures
            service.read_repo == read_repo,
            service.write_repo == write_repo,
    {
        ExpenseEntryService { read_repo, write_repo }
    }

    /// Whether `res` is an answer of the service to `create(dto)`: the
    /// failed validation of the first rule that the raw values break, or
    /// else the store's answer to the insertion of an expense entry that has
    /// the raw values as its fields and an identifier that is not nil.
    pub open spec fn create_outcome(
        &self,
        dto: ExpenseEntryNew,
        res: Result<ExpenseEntry, ApplicationError>,
    ) -> bool {
        match dto.violation() {
            Some(e) => res matches Err(error) && error@ == validation_failed(
                expense_entry_error_message(e),
            ),
            None => exists|entry: ExpenseEntry|
                {
                    &&& dto.describes(entry@)
                    &&& entry@.well_formed()
                    &&& !entry@.id.is_nil_spec()
                    &&& #[trigger] self.write_repo.insert_outcome(entry, res)
                },
        }
    }

    /// Whether `res` is an answer of the service to `update(id, dto)`: the
    /// failed validation of the first rule that the raw values break, or
    /// else the store's answer to the replacement of the record under `id`
    /// by an expense entry that has the raw values as its fields.
    pub open spec fn update_outcome(
        &self,
        id: EntityId,
        dto: ExpenseEntryNew,
        res: Result<ExpenseEntry, ApplicationError>,
    ) -> bool {
        match dto.violation() {
            Some(e) => res matches Err(error) && error@ == validation_failed(
                expense_entry_error_message(e),
            ),
            None => exists|entry: ExpenseEntry|
                {
                    &&& dto.describes(entry@)
                    &&& entry@.well_formed()
                    &&& !entry@.id.is_nil_spec()
                    &&& #[trigger] self.write_repo.update_outcome(id, entry, res)
                },
        }
    }

    /// Validates the raw values and puts the new expense entry on record.
    ///
    /// Values that break a rule are answered with the failed validation of
    /// the first rule they break, and the store is not asked. Otherwise the
    /// answer is the store's answer to the insertion of an expense entry
    /// that has the raw values as its fields and an identifier that is not
    /// nil. That a cost bearer or an expense type named by the values is on
    /// record is not looked at.
    pub fn create(&self, dto: ExpenseEntryNew) -> (res: Result<ExpenseEntry, ApplicationError>)
        ensures
            self.create_outcome(dto, res),
    {
        let entry = match ExpenseEntry::try_from(dto) {
            Ok(entry) => entry,
            Err(e) => {
                return Err(ApplicationError::from(e));
            },
        };
        let ghost recorded = entry;
        let res = self.write_repo.insert(entry);
        assert(self.write_repo.insert_outcome(recorded, res));
        res
    }

    /// Validates the raw values and replaces the record under `id` by the
    /// expense entry made of them. Validation comes first: values that
    /// break a rule are answered with the failed validation whether or not
    /// `id` is on record, and the store is not asked.
    pub fn update(&self, id: EntityId, dto: ExpenseEntryNew) -> (res: Result<
        ExpenseEntry,
        ApplicationError,
    >)
        ensures
            self.update_outcome(id, dto, res),
    {
        let entry = match ExpenseEntry::try_from(dto) {
            Ok(entry) => entry,
            Err(e) => {
                return Err(ApplicationError::from(e));
            },
        };
        let ghost recorded = entry;
        let res = self.write_repo.update(id, entry);
        assert(self.write_repo.update_outcome(id, recorded, res));
        res
    }

    /// Removes the record under `id`: the store's answer, unchanged.
    pub fn delete(&self, id: EntityId) -> (res: Result<(), ApplicationError>)
        ensures
            self.write_repo.delete_outcome(id, res),
    {
        self.write_repo.delete(id)
    }

    /// The expense entry on record under `id`: the store's answer,
    /// unchanged.
    pub fn get(&self, id: EntityId) -> (res: Result<ExpenseEntry, ApplicationError>)
        ensures
            self.read_repo.get_outcome(id, res),
    {
        self.read_repo.get(id)
    }
}

} // verus!
