//! A category under which expenses fall.

use vstd::prelude::*;
use crate::identifier::EntityId;
use crate::text::{is_blank, is_blank_text};

verus! {

/// Why raw values cannot become an [`ExpenseType`].
#[derive(Clone, Copy, Debug, PartialEq, Eq, Structural)]
pub enum ExpenseTypeValidationError {
    /// The name is empty or whitespace only.
    MissingName,
    /// The description is empty or whitespace only.
    MissingDescription,
    /// Another expense type on record has the name. Only a store can tell;
    /// no constructor returns this.
    DuplicateName,
}

/// The first rule that the raw values of an expense type break, if any: the
/// name is looked at before the description.
pub open spec fn expense_type_violation(name: Seq<char>, description: Seq<char>) -> Option<
    ExpenseTypeValidationError,
> {
    if is_blank(name) {
        Some(ExpenseTypeValidationError::MissingName)
    } else if is_blank(description) {
        Some(ExpenseTypeValidationError::MissingDescription)
    } else {
        None
    }
}

/// The mathematical value of an [`ExpenseType`].
pub struct ExpenseTypeView {
    pub id: EntityId,
    pub name: Seq<char>,
    pub description: Seq<char>,
}

impl ExpenseTypeView {
    /// The rules that every expense type meets: neither its name nor its
    /// description is blank.
    pub open spec fn well_formed(self) -> bool {
        expense_type_violation(self.name, self.description) is None
    }
}

/// A validated expense type. Its fields never change once it is built.
#[derive(Debug)]
pub struct ExpenseType {
    id: EntityId,
    name: String,
    description: String,
}

impl View for ExpenseType {
    type V = ExpenseTypeView;

    closed spec fn view(&self) -> ExpenseTypeView {
        ExpenseTypeView { id: self.id, name: self.name@, description: self.description@ }
    }
}

impl ExpenseType {
    /// Holds the raw values of an expense type against its rules, in their
    /// fixed order, and names the first one that is broken.
    pub fn validate(name: &str, description: &str) -> (res: Result<(), ExpenseTypeValidationError>)
        ensures
            match expense_type_violation(name@, description@) {
                Some(e) => res == Err::<(), ExpenseTypeValidationError>(e),
                None => res is Ok,
            },
    {
        if is_blank_text(name) {
            return Err(ExpenseTypeValidationError::MissingName);
        }
        if is_blank_text(description) {
            return Err(ExpenseTypeValidationError::MissingDescription);
        }
        Ok(())
    }

    /// Builds a new expense type under a fresh identifier.
    ///
    /// The values are rejected with the first rule they break; values that
    /// break none always yield an expense type. Whether the name is already
    /// in use is not looked at here.
    pub fn new(name: String, description: String) -> (res: Result<Self, ExpenseTypeValidationError>)
        ensures
            match expense_type_violation(name@, description@) {
                Some(e) => res == Err::<Self, ExpenseTypeValidationError>(e),
                None => res is Ok,
            },
            res matches Ok(expense_type) ==> {
                &&& expense_type@.well_formed()
                &&& expense_type@.name == name@
                &&& expense_type@.description == description@
                &&& !expense_type@.id.is_nil_spec()
                &&& expense_type@.id.is_random_spec()
            },
    {
        match Self::validate(name.as_str(), description.as_str()) {
            Err(e) => {
                return Err(e);
            },
            Ok(_) => {},
        }
        let id = EntityId::generate();
        Ok(ExpenseType { id, name, description })
    }

    /// Builds the expense type that has the given identifier, as when a
    /// record is read back. The same rules hold as for a new expense type.
    pub fn restore(id: EntityId, name: String, description: String) -> (res: Result<
        Self,
        ExpenseTypeValidationError,
    >)
        ensures
            match expense_type_violation(name@, description@) {
                Some(e) => res == Err::<Self, ExpenseTypeValidationError>(e),
                None => res matches Ok(expense_type) && expense_type@ == (ExpenseTypeView {
                    id,
                    name: name@,
                    description: description@,
                }),
            },
    {
        match Self::validate(name.as_str(), description.as_str()) {
            Err(e) => {
                return Err(e);
            },
            Ok(_) => {},
        }
        Ok(ExpenseType { id, name, description })
    }

    #[verifier::type_invariant]
    spec fn holds_rules(self) -> bool {
        self@.well_formed()
    }

    /// The identifier of the expense type.
    pub fn id(&self) -> (id: EntityId)
        ensures
            id == self@.id,
            self@.well_formed(),
    {
        proof {
            use_type_invariant(self);
        }
        self.id
    }

    /// The name of the expense type.
    pub fn name(&self) -> (name: &str)
        ensures
            name@ == self@.name,
            !is_blank(name@),
            self@.well_formed(),
    {
        proof {
            use_type_invariant(self);
        }
        self.name.as_str()
    }

    /// The description of the expense type.
    pub fn description(&self) -> (description: &str)
        ensures
            description@ == self@.description,
            !is_blank(description@),
            self@.well_formed(),
    {
        proof {
            use_type_invariant(self);
        }
        self.description.as_str()
    }
}

/// A blank name is rejected as a missing name, whatever the description.
pub proof fn law_blank_name_is_rejected(name: Seq<char>, description: Seq<char>)
    requires
        is_blank(name),
    ensures
        expense_type_violation(name, description) == Some(ExpenseTypeValidationError::MissingName),
{
}

/// A blank description is never accepted; under a name that is not blank it
/// is rejected as a missing description.
pub proof fn law_blank_description_is_rejected(name: Seq<char>, description: Seq<char>)
    requires
        is_blank(description),
    ensures
        expense_type_violation(name, description) is Some,
        !is_blank(name) ==> expense_type_violation(name, description) == Some(
            ExpenseTypeValidationError::MissingDescription,
        ),
{
}

/// A name and a description that are not blank are accepted.
pub proof fn law_named_and_described_is_accepted(name: Seq<char>, description: Seq<char>)
    requires
        !is_blank(name),
        !is_blank(description),
    ensures
        expense_type_violation(name, description) is None,
{
}

} // verus!
