//! Somebody, or something, that can be charged for expenses during a window
//! of time.

use vstd::prelude::*;
use crate::identifier::EntityId;
use crate::text::{is_blank, is_blank_text};
use crate::timestamp::Timestamp;

verus! {

/// Why raw values cannot become a [`CostBearer`].
#[derive(Clone, Copy, Debug, PartialEq, Eq, Structural)]
pub enum CostBearerValidationError {
    /// The name is empty or whitespace only.
    MissingName,
    /// The window ends at or before the instant at which it begins.
    InvalidDate,
}

/// Whether a window that begins at `exists_from` may end at `exists_to`: an
/// open window always may, a closed one must end strictly later than it
/// begins.
pub open spec fn window_is_valid(exists_from: Timestamp, exists_to: Option<Timestamp>) -> bool {
    match exists_to {
        Some(to) => to.is_after_spec(&exists_from),
        None => true,
    }
}

/// The first rule that the raw values of a cost bearer break, if any: the
/// name is looked at before the window.
pub open spec fn cost_bearer_violation(
    name: Seq<char>,
    exists_from: Timestamp,
    exists_to: Option<Timestamp>,
) -> Option<CostBearerValidationError> {
    if is_blank(name) {
        Some(CostBearerValidationError::MissingName)
    } else if !window_is_valid(exists_from, exists_to) {
        Some(CostBearerValidationError::InvalidDate)
    } else {
        None
    }
}

/// The mathematical value of a [`CostBearer`].
pub struct CostBearerView {
    pub id: EntityId,
    pub name: Seq<char>,
    pub exists_from: Timestamp,
    pub exists_to: Option<Timestamp>,
}

impl CostBearerView {
    /// The rules that every cost bearer meets: its name is not blank, and
    /// its window, if it ends, ends strictly later than it begins.
    pub open spec fn well_formed(self) -> bool {
        cost_bearer_violation(self.name, self.exists_from, self.exists_to) is None
    }
}

/// A validated cost bearer. Its fields never change once it is built.
#[derive(Debug)]
pub struct CostBearer {
    id: EntityId,
    name: String,
    exists_from: Timestamp,
    exists_to: Option<Timestamp>,
}

impl View for CostBearer {
    type V = CostBearerView;

    closed spec fn view(&self) -> CostBearerView {
        CostBearerView {
            id: self.id,
            name: self.name@,
            exists_from: self.exists_from,
            exists_to: self.exists_to,
        }
    }
}

impl CostBearer {
    /// Holds the raw values of a cost bearer against its rules, in their
    /// fixed order, and names the first one that is broken.
    pub fn validate(
        name: &str,
        exists_from: Timestamp,
        exists_to: Option<Timestamp>,
    ) -> (res: Result<(), CostBearerValidationError>)
        ensures
            match cost_bearer_violation(name@, exists_from, exists_to) {
                Some(e) => res == Err::<(), CostBearerValidationError>(e),
                None => res is Ok,
            },
    {
        if is_blank_text(name) {
            return Err(CostBearerValidationError::MissingName);
        }
        match exists_to {
            Some(to) => {
                if to.is_at_or_before(&exists_from) {
                    return Err(CostBearerValidationError::InvalidDate);
                }
            },
            None => {},
        }
        Ok(())
    }

    /// Builds a new cost bearer under a fresh identifier.
    ///
    /// The values are rejected with the first rule they break; values that
    /// break none always yield a cost bearer.
    pub fn new(name: String, exists_from: Timestamp, exists_to: Option<Timestamp>) -> (res: Result<
        Self,
        CostBearerValidationError,
    >)
        ensures
            match cost_bearer_violation(name@, exists_from, exists_to) {
                Some(e) => res == Err::<Self, CostBearerValidationError>(e),
                None => res is Ok,
            },
            res matches Ok(bearer) ==> {
                &&& bearer@.well_formed()
                &&& bearer@.name == name@
                &&& bearer@.exists_from == exists_from
                &&& bearer@.exists_to == exists_to
                &&& !bearer@.id.is_nil_spec()
                &&& bearer@.id.is_random_spec()
            },
    {
        match Self::validate(name.as_str(), exists_from, exists_to) {
            Err(e) => {
                return Err(e);
            },
            Ok(_) => {},
        }
        let id = EntityId::generate();
        Ok(CostBearer { id, name, exists_from, exists_to })
    }

    /// Builds the cost bearer that has the given identifier, as when a
    /// record is read back. The same rules hold as for a new cost bearer.
    pub fn restore(
        id: EntityId,
        name: String,
        exists_from: Timestamp,
        exists_to: Option<Timestamp>,
    ) -> (res: Result<Self, CostBearerValidationError>)
        ensures
            match cost_bearer_violation(name@, exists_from, exists_to) {
                Some(e) => res == Err::<Self, CostBearerValidationError>(e),
                None => res matches Ok(bearer) && bearer@ == (CostBearerView {
                    id,
                    name: name@,
                    exists_from,
                    exists_to,
                }),
            },
    {
        match Self::validate(name.as_str(), exists_from, exists_to) {
            Err(e) => {
                return Err(e);
            },
            Ok(_) => {},
        }
        Ok(CostBearer { id, name, exists_from, exists_to })
    }

    #[verifier::type_invariant]
    spec fn holds_rules(self) -> bool {
        self@.well_formed()
    }

    /// The identifier of the cost bearer.
    pub fn id(&self) -> (id: EntityId)
        ensures
            id == self@.id,
            self@.well_formed(),
    {
        proof {
            use_type_invariant(self);
        }
        self.id
    }

    /// The name of the cost bearer.
    pub fn name(&self) -> (name: &str)
        ensures
            name@ == self@.name,
            !is_blank(name@),
            self@.well_formed(),
    {
        proof {
            use_type_invariant(self);
        }
        self.name.as_str()
    }

    /// The instant from which the cost bearer can be charged.
    pub fn exists_from(&self) -> (exists_from: Timestamp)
        ensures
            exists_from == self@.exists_from,
            self@.well_formed(),
    {
        proof {
            use_type_invariant(self);
        }
        self.exists_from
    }

    /// The instant from which the cost bearer can no longer be charged, if
    /// there is one. It is strictly later than [`CostBearer::exists_from`].
    pub fn exists_to(&self) -> (exists_to: Option<Timestamp>)
        ensures
            exists_to == self@.exists_to,
            window_is_valid(self@.exists_from, exists_to),
            self@.well_formed(),
    {
        proof {
            use_type_invariant(self);
        }
        self.exists_to
    }
}

/// A blank name is rejected as a missing name, whatever the window.
pub proof fn law_blank_name_is_rejected(
    name: Seq<char>,
    exists_from: Timestamp,
    exists_to: Option<Timestamp>,
)
    requires
        is_blank(name),
    ensures
        cost_bearer_violation(name, exists_from, exists_to) == Some(
            CostBearerValidationError::MissingName,
        ),
{
}

/// Under a name that is not blank, a window that ends at or before the
/// instant at which it begins is rejected as an invalid date.
pub proof fn law_window_ending_early_is_rejected(
    name: Seq<char>,
    exists_from: Timestamp,
    exists_to: Timestamp,
)
    requires
        !is_blank(name),
        exists_to.is_at_or_before_spec(&exists_from),
    ensures
        cost_bearer_violation(name, exists_from, Some(exists_to)) == Some(
            CostBearerValidationError::InvalidDate,
        ),
{
}

/// Under a name that is not blank, a window that does not end, or that ends
/// strictly later than it begins, is accepted.
pub proof fn law_open_or_later_window_is_accepted(
    name: Seq<char>,
    exists_from: Timestamp,
    exists_to: Option<Timestamp>,
)
    requires
        !is_blank(name),
        exists_to matches Some(to) ==> to.is_after_spec(&exists_from),
    ensures
        cost_bearer_violation(name, exists_from, exists_to) is None,
{
}

} // verus!
