//! An expense and the way its amount is split across cost bearers.

use std::collections::HashSet;
use vstd::prelude::*;
use crate::domain::cost_share::CostShare;
use crate::identifier::EntityId;
use crate::text::{is_blank, is_blank_text};
use crate::timestamp::{current_time, Timestamp};

verus! {

/// Why raw values cannot become an [`ExpenseEntry`].
#[derive(Clone, Copy, Debug, PartialEq, Eq, Structural)]
pub enum ExpenseEntryValidationError {
    /// The list of cost shares is empty.
    MissingCostShares,
    /// A cost share has a zero amount or names no cost bearer.
    MalformedCostShares,
    /// A cost share names a cost bearer that is not on record.
    InvalidCostBearerId(EntityId),
    /// A cost bearer is named by more than one cost share.
    DuplicateCostBearerIds(EntityId),
    /// The expense type is the nil identifier.
    MissingExpenseType,
    /// The expense type is not on record.
    InvalidExpenseTypeId(EntityId),
    /// The description is empty or whitespace only.
    MissingDescription,
}

/// Whether one of the first `upto` shares names the bearer `id`.
pub open spec fn occurs_before(shares: Seq<CostShare>, upto: int, id: EntityId) -> bool {
    exists|j: int| 0 <= j < upto && (#[trigger] shares[j]).cost_bearer_id == id
}

/// What is wrong with share `i`, given the shares before it: naming a bearer
/// again is found before a zero amount or a missing bearer.
pub open spec fn share_error_at(shares: Seq<CostShare>, i: int) -> Option<
    ExpenseEntryValidationError,
> {
    if occurs_before(shares, i, shares[i].cost_bearer_id) {
        Some(ExpenseEntryValidationError::DuplicateCostBearerIds(shares[i].cost_bearer_id))
    } else if shares[i].is_malformed_spec() {
        Some(ExpenseEntryValidationError::MalformedCostShares)
    } else {
        None
    }
}

/// The error of the first share at or after `from` that has one.
pub open spec fn first_share_error(shares: Seq<CostShare>, from: int) -> Option<
    ExpenseEntryValidationError,
>
    decreases shares.len() - from,
{
    if from < 0 || from >= shares.len() {
        None
    } else if share_error_at(shares, from) is Some {
        share_error_at(shares, from)
    } else {
        first_share_error(shares, from + 1)
    }
}

/// The first rule that the raw values of an expense entry break, if any:
/// the shares are looked at first, then the expense type, then the
/// description.
pub open spec fn entry_violation(
    cost_shares: Seq<CostShare>,
    expense_type: EntityId,
    description: Seq<char>,
) -> Option<ExpenseEntryValidationError> {
    if cost_shares.len() == 0 {
        Some(ExpenseEntryValidationError::MissingCostShares)
    } else if first_share_error(cost_shares, 0) is Some {
        first_share_error(cost_shares, 0)
    } else if expense_type.is_nil_spec() {
        Some(ExpenseEntryValidationError::MissingExpenseType)
    } else if is_blank(description) {
        Some(ExpenseEntryValidationError::MissingDescription)
    } else {
        None
    }
}

/// Shares without an error do not change which error is found first.
pub proof fn lemma_first_share_error_skips(shares: Seq<CostShare>, from: int, to: int)
    requires
        0 <= from <= to <= shares.len(),
        forall|k: int| from <= k < to ==> share_error_at(shares, k) is None,
    ensures
        first_share_error(shares, from) == first_share_error(shares, to),
    decreases to - from,
{
    if from < to {
        lemma_first_share_error_skips(shares, from + 1, to);
    }
}

/// The shares have no error exactly when no single share has one.
pub proof fn lemma_no_share_error(shares: Seq<CostShare>)
    ensures
        first_share_error(shares, 0) is None <==> forall|k: int|
            0 <= k < shares.len() ==> share_error_at(shares, k) is None,
{
    if forall|k: int| 0 <= k < shares.len() ==> share_error_at(shares, k) is None {
        lemma_first_share_error_skips(shares, 0, shares.len() as int);
    } else {
        let k = choose|k: int| 0 <= k < shares.len() && share_error_at(shares, k) is Some;
        lemma_first_share_error_found(shares, 0, k);
    }
}

/// A share with an error makes the scan end with an error.
proof fn lemma_first_share_error_found(shares: Seq<CostShare>, from: int, k: int)
    requires
        0 <= from <= k < shares.len(),
        share_error_at(shares, k) is Some,
    ensures
        first_share_error(shares, from) is Some,
    decreases k - from,
{
    if from < k && share_error_at(shares, from) is None {
        lemma_first_share_error_found(shares, from + 1, k);
    }
}

/// The mathematical value of an [`ExpenseEntry`].
pub struct ExpenseEntryView {
    pub id: EntityId,
    pub expense_date: Timestamp,
    pub cost_shares: Seq<CostShare>,
    pub expense_type: EntityId,
    pub description: Seq<char>,
}

impl ExpenseEntryView {
    /// The rules that every expense entry meets: it has at least one share,
    /// no bearer is named twice, no share is malformed, the expense type is
    /// not nil and the description is not blank.
    pub open spec fn well_formed(self) -> bool {
        entry_violation(self.cost_shares, self.expense_type, self.description) is None
    }
}

/// A validated expense. Its fields never change once it is built.
#[derive(Debug)]
pub struct ExpenseEntry {
    id: EntityId,
    expense_date: Timestamp,
    cost_shares: Vec<CostShare>,
    expense_type: EntityId,
    description: String,
}

impl View for ExpenseEntry {
    type V = ExpenseEntryView;

    closed spec fn view(&self) -> ExpenseEntryView {
        ExpenseEntryView {
            id: self.id,
            expense_date: self.expense_date,
            cost_shares: self.cost_shares@,
            expense_type: self.expense_type,
            description: self.description@,
        }
    }
}

/// Looks for the first share that names a bearer again, has a zero amount
/// or names no bearer.
pub fn check_cost_shares(cost_shares: &Vec<CostShare>) -> (res: Result<
    (),
    ExpenseEntryValidationError,
>)
    ensures
        match first_share_error(cost_shares@, 0) {
            Some(e) => res == Err::<(), ExpenseEntryValidationError>(e),
            None => res is Ok,
        },
{
    broadcast use vstd::std_specs::hash::group_hash_axioms;

    let mut seen: HashSet<u128> = HashSet::new();
    let mut i: usize = 0;
    while i < cost_shares.len()
        invariant
            i <= cost_shares.len(),
            forall|k: int| 0 <= k < i ==> share_error_at(cost_shares@, k) is None,
            forall|v: u128| #[trigger]
                seen@.contains(v) <==> occurs_before(cost_shares@, i as int, EntityId { value: v }),
        decreases cost_shares.len() - i,
    {
        let share = cost_shares[i];
        let first_time = seen.insert(share.cost_bearer_id.value);
        proof {
            lemma_first_share_error_skips(cost_shares@, 0, i as int);
        }
        if !first_time {
            return Err(ExpenseEntryValidationError::DuplicateCostBearerIds(share.cost_bearer_id));
        }
        if share.is_malformed() {
            return Err(ExpenseEntryValidationError::MalformedCostShares);
        }
        proof {
            assert forall|v: u128| #[trigger]
                seen@.contains(v) <==> occurs_before(
                    cost_shares@,
                    i + 1,
                    EntityId { value: v },
                ) by {
                let id = EntityId { value: v };
                if occurs_before(cost_shares@, i + 1, id) {
                    let j = choose|j: int|
                        0 <= j < i + 1 && (#[trigger] cost_shares@[j]).cost_bearer_id == id;
                    if j < i {
                        assert(occurs_before(cost_shares@, i as int, id));
                    }
                }
                if seen@.contains(v) && v != share.cost_bearer_id.value {
                    let j = choose|j: int|
                        0 <= j < i && (#[trigger] cost_shares@[j]).cost_bearer_id == id;
                    assert(cost_shares@[j].cost_bearer_id == id);
                }
            }
        }
        i += 1;
    }
    proof {
        lemma_first_share_error_skips(cost_shares@, 0, cost_shares@.len() as int);
    }
    Ok(())
}

impl ExpenseEntry {
    /// Holds the raw values of an expense entry against its rules, in their
    /// fixed order, and names the first one that is broken.
    pub fn validate(
        cost_shares: &Vec<CostShare>,
        expense_type: EntityId,
        description: &str,
    ) -> (res: Result<(), ExpenseEntryValidationError>)
        ensures
            match entry_violation(cost_shares@, expense_type, description@) {
                Some(e) => res == Err::<(), ExpenseEntryValidationError>(e),
                None => res is Ok,
            },
    {
        if cost_shares.len() == 0 {
            return Err(ExpenseEntryValidationError::MissingCostShares);
        }
        match check_cost_shares(cost_shares) {
            Err(e) => {
                return Err(e);
            },
            Ok(_) => {},
        }
        if expense_type.is_nil() {
            return Err(ExpenseEntryValidationError::MissingExpenseType);
        }
        if is_blank_text(description) {
            return Err(ExpenseEntryValidationError::MissingDescription);
        }
        Ok(())
    }

    /// Builds a new expense entry under a fresh identifier. Without an
    /// `expense_date` the entry is dated with the current time.
    ///
    /// The values are rejected with the first rule they break; values that
    /// break none always yield an entry.
    pub fn new(
        cost_shares: Vec<CostShare>,
        expense_type: EntityId,
        description: String,
        expense_date: Option<Timestamp>,
    ) -> (res: Result<Self, ExpenseEntryValidationError>)
        ensures
            match entry_violation(cost_shares@, expense_type, description@) {
                Some(e) => res == Err::<Self, ExpenseEntryValidationError>(e),
                None => res is Ok,
            },
            res matches Ok(entry) ==> {
                &&& entry@.well_formed()
                &&& entry@.cost_shares == cost_shares@
                &&& entry@.expense_type == expense_type
                &&& entry@.description == description@
                &&& expense_date matches Some(date) ==> entry@.expense_date == date
                &&& expense_date is None ==> entry@.expense_date.secs >= 0
                    && entry@.expense_date.nanos < 1_000_000_000
                &&& !entry@.id.is_nil_spec()
                &&& entry@.id.is_random_spec()
            },
    {
        match Self::validate(&cost_shares, expense_type, description.as_str()) {
            Err(e) => {
                return Err(e);
            },
            Ok(_) => {},
        }
        let id = EntityId::generate();
        let expense_date = match expense_date {
            Some(date) => date,
            None => current_time(),
        };
        Ok(ExpenseEntry { id, expense_date, cost_shares, expense_type, description })
    }

    /// Builds the expense entry that has the given identifier and date, as
    /// when a record is read back. The same rules hold as for a new entry.
    pub fn restore(
        id: EntityId,
        expense_date: Timestamp,
        cost_shares: Vec<CostShare>,
        expense_type: EntityId,
        description: String,
    ) -> (res: Result<Self, ExpenseEntryValidationError>)
        ensures
            match entry_violation(cost_shares@, expense_type, description@) {
                Some(e) => res == Err::<Self, ExpenseEntryValidationError>(e),
                None => res matches Ok(entry) && entry@ == (ExpenseEntryView {
                    id,
                    expense_date,
                    cost_shares: cost_shares@,
                    expense_type,
                    description: description@,
                }),
            },
    {
        match Self::validate(&cost_shares, expense_type, description.as_str()) {
            Err(e) => {
                return Err(e);
            },
            Ok(_) => {},
        }
        Ok(ExpenseEntry { id, expense_date, cost_shares, expense_type, description })
    }

    #[verifier::type_invariant]
    spec fn holds_rules(self) -> bool {
        self@.well_formed()
    }

    /// The identifier of the entry.
    pub fn id(&self) -> (id: EntityId)
        ensures
            id == self@.id,
            self@.well_formed(),
    {
        proof {
            use_type_invariant(self);
        }
        self.id
    }

    /// The instant of the expense.
    pub fn expense_date(&self) -> (date: Timestamp)
        ensures
            date == self@.expense_date,
            self@.well_formed(),
    {
        proof {
            use_type_invariant(self);
        }
        self.expense_date
    }

    /// The shares of the expense, in the order in which they were given.
    pub fn cost_shares(&self) -> (shares: &[CostShare])
        ensures
            shares@ == self@.cost_shares,
            self@.well_formed(),
    {
        proof {
            use_type_invariant(self);
        }
        self.cost_shares.as_slice()
    }

    /// The identifier of the expense's type.
    pub fn expense_type(&self) -> (expense_type: EntityId)
        ensures
            expense_type == self@.expense_type,
            !expense_type.is_nil_spec(),
            self@.well_formed(),
    {
        proof {
            use_type_invariant(self);
        }
        self.expense_type
    }

    /// The description of the expense.
    pub fn description(&self) -> (description: &str)
        ensures
            description@ == self@.description,
            !is_blank(description@),
            self@.well_formed(),
    {
        proof {
            use_type_invariant(self);
        }
        self.description.as_str()
    }
}

/// Whether no two of the first `upto` shares name the same bearer.
pub open spec fn bearers_distinct(shares: Seq<CostShare>, upto: int) -> bool {
    forall|j: int, k: int|
        0 <= j < k < upto ==> (#[trigger] shares[j]).cost_bearer_id != (
        #[trigger] shares[k]).cost_bearer_id
}

proof fn lemma_repeat_is_found(shares: Seq<CostShare>, from: int, k: int)
    requires
        0 <= from <= k < shares.len(),
        occurs_before(shares, k, shares[k].cost_bearer_id),
        forall|i: int| from <= i < k ==> !(#[trigger] shares[i]).is_malformed_spec(),
    ensures
        first_share_error(shares, from) matches Some(
            ExpenseEntryValidationError::DuplicateCostBearerIds(_),
        ),
    decreases k - from,
{
    if from < k && share_error_at(shares, from) is None {
        lemma_repeat_is_found(shares, from + 1, k);
    } else if from < k {
        assert(!shares[from].is_malformed_spec());
    }
}

proof fn lemma_malformed_is_found(shares: Seq<CostShare>, from: int, k: int)
    requires
        0 <= from <= k < shares.len(),
        shares[k].is_malformed_spec(),
        bearers_distinct(shares, k + 1),
    ensures
        first_share_error(shares, from) == Some(ExpenseEntryValidationError::MalformedCostShares),
    decreases k - from,
{
    assert(!occurs_before(shares, from, shares[from].cost_bearer_id)) by {
        if occurs_before(shares, from, shares[from].cost_bearer_id) {
            let j = choose|j: int|
                0 <= j < from && (#[trigger] shares[j]).cost_bearer_id
                    == shares[from].cost_bearer_id;
            assert(shares[j].cost_bearer_id != shares[from].cost_bearer_id);
        }
    }
    if from < k && share_error_at(shares, from) is None {
        lemma_malformed_is_found(shares, from + 1, k);
    }
}

/// The first share with an error, where the scan from `from` finds one.
proof fn lemma_first_error_index(shares: Seq<CostShare>, from: int) -> (k: int)
    requires
        0 <= from,
        first_share_error(shares, from) is Some,
    ensures
        from <= k < shares.len(),
        share_error_at(shares, k) == first_share_error(shares, from),
        forall|i: int| from <= i < k ==> share_error_at(shares, i) is None,
    decreases shares.len() - from,
{
    if share_error_at(shares, from) is Some {
        from
    } else {
        lemma_first_error_index(shares, from + 1)
    }
}

proof fn lemma_no_error_up_to_means_distinct(shares: Seq<CostShare>, upto: int)
    requires
        0 <= upto <= shares.len(),
        forall|i: int|
            0 <= i < upto ==> !occurs_before(shares, i, (#[trigger] shares[i]).cost_bearer_id),
    ensures
        bearers_distinct(shares, upto),
{
    assert forall|j: int, k: int| 0 <= j < k < upto implies (#[trigger] shares[j]).cost_bearer_id
        != (#[trigger] shares[k]).cost_bearer_id by {
        if shares[j].cost_bearer_id == shares[k].cost_bearer_id {
            assert(occurs_before(shares, k, shares[k].cost_bearer_id));
        }
    }
}

/// An empty list of shares is rejected as missing cost shares, whatever the
/// other values.
pub proof fn law_empty_shares_are_rejected(
    cost_shares: Seq<CostShare>,
    expense_type: EntityId,
    description: Seq<char>,
)
    requires
        cost_shares.len() == 0,
    ensures
        entry_violation(cost_shares, expense_type, description) == Some(
            ExpenseEntryValidationError::MissingCostShares,
        ),
{
}

/// At least one share, none of them malformed and no bearer named twice, an
/// expense type that is not nil and a description that is not blank are
/// accepted.
pub proof fn law_sound_values_are_accepted(
    cost_shares: Seq<CostShare>,
    expense_type: EntityId,
    description: Seq<char>,
)
    requires
        cost_shares.len() > 0,
        forall|i: int|
            0 <= i < cost_shares.len() ==> !(#[trigger] cost_shares[i]).is_malformed_spec(),
        bearers_distinct(cost_shares, cost_shares.len() as int),
        !expense_type.is_nil_spec(),
        !is_blank(description),
    ensures
        entry_violation(cost_shares, expense_type, description) is None,
{
    assert forall|k: int| 0 <= k < cost_shares.len() implies share_error_at(cost_shares, k)
        is None by {
        if occurs_before(cost_shares, k, cost_shares[k].cost_bearer_id) {
            let j = choose|j: int|
                0 <= j < k && (#[trigger] cost_shares[j]).cost_bearer_id
                    == cost_shares[k].cost_bearer_id;
            assert(cost_shares[j].cost_bearer_id != cost_shares[k].cost_bearer_id);
        }
    }
    lemma_no_share_error(cost_shares);
}

/// Values that are accepted are sound: there is at least one share, no
/// share is malformed, no bearer is named twice, the expense type is not
/// nil and the description is not blank.
pub proof fn law_accepted_values_are_sound(
    cost_shares: Seq<CostShare>,
    expense_type: EntityId,
    description: Seq<char>,
)
    requires
        entry_violation(cost_shares, expense_type, description) is None,
    ensures
        cost_shares.len() > 0,
        forall|i: int|
            0 <= i < cost_shares.len() ==> !(#[trigger] cost_shares[i]).is_malformed_spec(),
        bearers_distinct(cost_shares, cost_shares.len() as int),
        !expense_type.is_nil_spec(),
        !is_blank(description),
{
    lemma_no_share_error(cost_shares);
    assert forall|i: int| 0 <= i < cost_shares.len() implies !(
    #[trigger] cost_shares[i]).is_malformed_spec() && !occurs_before(
        cost_shares,
        i,
        cost_shares[i].cost_bearer_id,
    ) by {
        assert(share_error_at(cost_shares, i) is None);
    }
    lemma_no_error_up_to_means_distinct(cost_shares, cost_shares.len() as int);
}

/// Two shares that name the same bearer are rejected as a duplicate,
/// whatever the amounts of the two, provided that no share before the
/// second of them is malformed: a malformed share that comes first is what
/// is reported.
pub proof fn law_repeated_bearer_is_rejected(
    cost_shares: Seq<CostShare>,
    expense_type: EntityId,
    description: Seq<char>,
    j: int,
    k: int,
)
    requires
        0 <= j < k < cost_shares.len(),
        cost_shares[j].cost_bearer_id == cost_shares[k].cost_bearer_id,
        forall|i: int| 0 <= i < k ==> !(#[trigger] cost_shares[i]).is_malformed_spec(),
    ensures
        entry_violation(cost_shares, expense_type, description) matches Some(
            ExpenseEntryValidationError::DuplicateCostBearerIds(_),
        ),
{
    assert(occurs_before(cost_shares, k, cost_shares[k].cost_bearer_id));
    lemma_repeat_is_found(cost_shares, 0, k);
}

/// A share with a zero amount or without a bearer is rejected as malformed,
/// provided that no bearer is named twice up to and including that share: a
/// repeated bearer that comes first is what is reported.
pub proof fn law_malformed_share_is_rejected(
    cost_shares: Seq<CostShare>,
    expense_type: EntityId,
    description: Seq<char>,
    k: int,
)
    requires
        0 <= k < cost_shares.len(),
        cost_shares[k].is_malformed_spec(),
        bearers_distinct(cost_shares, k + 1),
    ensures
        entry_violation(cost_shares, expense_type, description) == Some(
            ExpenseEntryValidationError::MalformedCostShares,
        ),
{
    lemma_malformed_is_found(cost_shares, 0, k);
}

/// Where a duplicate is reported, the bearer that it names is named by two
/// shares, and no share before the second of them is malformed.
pub proof fn law_duplicate_means_repeated_bearer(
    cost_shares: Seq<CostShare>,
    expense_type: EntityId,
    description: Seq<char>,
    id: EntityId,
) -> (at: (int, int))
    requires
        entry_violation(cost_shares, expense_type, description) == Some(
            ExpenseEntryValidationError::DuplicateCostBearerIds(id),
        ),
    ensures
        0 <= at.0 < at.1 < cost_shares.len(),
        cost_shares[at.0].cost_bearer_id == id,
        cost_shares[at.1].cost_bearer_id == id,
        forall|i: int| 0 <= i < at.1 ==> !(#[trigger] cost_shares[i]).is_malformed_spec(),
{
    let k = lemma_first_error_index(cost_shares, 0);
    let j = choose|j: int|
        0 <= j < k && (#[trigger] cost_shares[j]).cost_bearer_id == cost_shares[k].cost_bearer_id;
    assert forall|i: int| 0 <= i < k implies !(#[trigger] cost_shares[i]).is_malformed_spec() by {
        assert(share_error_at(cost_shares, i) is None);
    }
    (j, k)
}

/// Where a malformed share is reported, there is a share with a zero amount
/// or without a bearer, and no bearer is named twice up to and including
/// that share.
pub proof fn law_malformed_means_malformed_share(
    cost_shares: Seq<CostShare>,
    expense_type: EntityId,
    description: Seq<char>,
) -> (k: int)
    requires
        entry_violation(cost_shares, expense_type, description) == Some(
            ExpenseEntryValidationError::MalformedCostShares,
        ),
    ensures
        0 <= k < cost_shares.len(),
        cost_shares[k].is_malformed_spec(),
        bearers_distinct(cost_shares, k + 1),
{
    let k = lemma_first_error_index(cost_shares, 0);
    assert forall|i: int| 0 <= i < k + 1 implies !occurs_before(
        cost_shares,
        i,
        (#[trigger] cost_shares[i]).cost_bearer_id,
    ) by {
        if i < k {
            assert(share_error_at(cost_shares, i) is None);
        }
    }
    lemma_no_error_up_to_means_distinct(cost_shares, k + 1);
    k
}

/// A nil expense type is never accepted; behind shares without an error it
/// is rejected as a missing expense type.
pub proof fn law_nil_expense_type_is_rejected(
    cost_shares: Seq<CostShare>,
    expense_type: EntityId,
    description: Seq<char>,
)
    requires
        expense_type.is_nil_spec(),
    ensures
        entry_violation(cost_shares, expense_type, description) is Some,
        cost_shares.len() > 0 && first_share_error(cost_shares, 0) is None ==> entry_violation(
            cost_shares,
            expense_type,
            description,
        ) == Some(ExpenseEntryValidationError::MissingExpenseType),
{
}

/// A blank description is never accepted; behind shares without an error
/// and an expense type that is not nil it is rejected as a missing
/// description.
pub proof fn law_blank_description_is_rejected(
    cost_shares: Seq<CostShare>,
    expense_type: EntityId,
    description: Seq<char>,
)
    requires
        is_blank(description),
    ensures
        entry_violation(cost_shares, expense_type, description) is Some,
        cost_shares.len() > 0 && first_share_error(cost_shares, 0) is None
            && !expense_type.is_nil_spec() ==> entry_violation(
            cost_shares,
            expense_type,
            description,
        ) == Some(ExpenseEntryValidationError::MissingDescription),
{
}

} // verus!
