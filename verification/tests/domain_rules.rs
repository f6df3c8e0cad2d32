use shared_expenses::domain::cost_bearer::{CostBearer, CostBearerValidationError};
use shared_expenses::domain::cost_share::{Amount, CostShare};
use shared_expenses::domain::expense_entry::{
    check_cost_shares, ExpenseEntry, ExpenseEntryValidationError,
};
use shared_expenses::domain::expense_type::{ExpenseType, ExpenseTypeValidationError};
use shared_expenses::identifier::EntityId;
use shared_expenses::timestamp::Timestamp;

fn share(bearer: u128, amount: f64) -> CostShare {
    CostShare {
        cost_bearer_id: EntityId::from_u128(bearer),
        amount: Amount::from_bits(amount.to_bits()),
    }
}

fn some_type() -> EntityId {
    EntityId::from_u128(0xABCD)
}

// ---- cost bearers ----

#[test]
fn cost_bearer_is_built_from_sound_values() {
    let from = Timestamp::new(1_735_689_600, 0);
    let to = Timestamp::new(1_767_225_600, 0);
    let bearer = CostBearer::new(String::from("Barclays Credit Card"), from, Some(to)).unwrap();
    assert_eq!(bearer.name(), "Barclays Credit Card");
    assert_eq!(bearer.exists_from(), from);
    assert_eq!(bearer.exists_to(), Some(to));
    assert!(!bearer.id().is_nil());
    assert!(bearer.id().is_random());
}

#[test]
fn cost_bearer_window_may_stay_open() {
    let from = Timestamp::new(1_735_689_600, 0);
    let bearer = CostBearer::new(String::from("Cash"), from, None).unwrap();
    assert_eq!(bearer.exists_to(), None);
    assert_eq!(bearer.exists_from(), from);
}

#[test]
fn cost_bearer_keeps_its_name_untrimmed() {
    let bearer = CostBearer::new(String::from("  Cash \t"), Timestamp::new(0, 0), None).unwrap();
    assert_eq!(bearer.name(), "  Cash \t");
}

#[test]
fn cost_bearer_without_name_is_rejected() {
    let from = Timestamp::new(10, 0);
    let to = Timestamp::new(20, 0);
    for name in ["", " ", "   \t  ", "\n", "\u{3000}\u{00A0}"] {
        assert_eq!(
            CostBearer::new(String::from(name), from, Some(to)).unwrap_err(),
            CostBearerValidationError::MissingName
        );
        assert_eq!(
            CostBearer::new(String::from(name), from, None).unwrap_err(),
            CostBearerValidationError::MissingName
        );
        assert_eq!(
            CostBearer::validate(name, from, None),
            Err(CostBearerValidationError::MissingName)
        );
    }
}

#[test]
fn cost_bearer_window_must_end_after_it_begins() {
    let from = Timestamp::new(1_767_225_600, 0);
    let earlier = Timestamp::new(1_735_689_600, 0);
    assert_eq!(
        CostBearer::new(String::from("Barclays Credit Card"), from, Some(earlier)).unwrap_err(),
        CostBearerValidationError::InvalidDate
    );
    // The same instant is not later.
    assert_eq!(
        CostBearer::new(String::from("Barclays Credit Card"), from, Some(from)).unwrap_err(),
        CostBearerValidationError::InvalidDate
    );
    // One nanosecond earlier, one nanosecond later.
    let base = Timestamp::new(100, 500);
    assert_eq!(
        CostBearer::new(String::from("x"), base, Some(Timestamp::new(100, 499))).unwrap_err(),
        CostBearerValidationError::InvalidDate
    );
    assert!(CostBearer::new(String::from("x"), base, Some(Timestamp::new(100, 501))).is_ok());
    // Seconds decide before nanoseconds do.
    assert!(CostBearer::new(String::from("x"), base, Some(Timestamp::new(101, 0))).is_ok());
    assert_eq!(
        CostBearer::new(String::from("x"), base, Some(Timestamp::new(99, 999_999_999)))
            .unwrap_err(),
        CostBearerValidationError::InvalidDate
    );
}

#[test]
fn cost_bearer_name_is_checked_before_the_window() {
    let from = Timestamp::new(20, 0);
    let to = Timestamp::new(10, 0);
    assert_eq!(
        CostBearer::new(String::from("  "), from, Some(to)).unwrap_err(),
        CostBearerValidationError::MissingName
    );
}

#[test]
fn cost_bearer_validation_accepts_what_the_constructor_accepts() {
    let from = Timestamp::new(10, 0);
    assert_eq!(CostBearer::validate("Cash", from, None), Ok(()));
    assert_eq!(CostBearer::validate("Cash", from, Some(Timestamp::new(11, 0))), Ok(()));
    assert_eq!(
        CostBearer::validate("Cash", from, Some(Timestamp::new(9, 0))),
        Err(CostBearerValidationError::InvalidDate)
    );
}

#[test]
fn cost_bearer_is_restored_field_for_field() {
    let from = Timestamp::new(1_735_689_600, 7);
    let to = Timestamp::new(1_767_225_600, 9);
    let built = CostBearer::new(String::from("Barclays Credit Card"), from, Some(to)).unwrap();
    let again = CostBearer::restore(
        built.id(),
        String::from(built.name()),
        built.exists_from(),
        built.exists_to(),
    )
    .unwrap();
    assert_eq!(again.id(), built.id());
    assert_eq!(again.name(), built.name());
    assert_eq!(again.exists_from(), built.exists_from());
    assert_eq!(again.exists_to(), built.exists_to());
}

#[test]
fn cost_bearer_is_not_restored_from_unsound_values() {
    let id = EntityId::from_u128(77);
    assert_eq!(
        CostBearer::restore(id, String::from(" "), Timestamp::new(1, 0), None).unwrap_err(),
        CostBearerValidationError::MissingName
    );
    assert_eq!(
        CostBearer::restore(id, String::from("x"), Timestamp::new(1, 0), Some(Timestamp::new(1, 0)))
            .unwrap_err(),
        CostBearerValidationError::InvalidDate
    );
    let kept = CostBearer::restore(EntityId::nil(), String::from("x"), Timestamp::new(1, 0), None)
        .unwrap();
    assert!(kept.id().is_nil());
}

// ---- expense types ----

#[test]
fn expense_type_is_built_from_sound_values() {
    let expense_type = ExpenseType::new(
        String::from("Transportation"),
        String::from("Expenses related to transportation and travel"),
    )
    .unwrap();
    assert_eq!(expense_type.name(), "Transportation");
    assert_eq!(expense_type.description(), "Expenses related to transportation and travel");
    assert!(!expense_type.id().is_nil());
}

#[test]
fn expense_type_without_name_is_rejected() {
    for name in ["", "   \t  "] {
        assert_eq!(
            ExpenseType::new(String::from(name), String::from("Some description")).unwrap_err(),
            ExpenseTypeValidationError::MissingName
        );
    }
}

#[test]
fn expense_type_without_description_is_rejected() {
    for description in ["", "   \t  "] {
        assert_eq!(
            ExpenseType::new(String::from("Some name"), String::from(description)).unwrap_err(),
            ExpenseTypeValidationError::MissingDescription
        );
    }
}

#[test]
fn expense_type_name_is_checked_before_the_description() {
    assert_eq!(
        ExpenseType::new(String::from(""), String::from("")).unwrap_err(),
        ExpenseTypeValidationError::MissingName
    );
    assert_eq!(ExpenseType::validate(" ", " "), Err(ExpenseTypeValidationError::MissingName));
    assert_eq!(ExpenseType::validate("a", " "), Err(ExpenseTypeValidationError::MissingDescription));
    assert_eq!(ExpenseType::validate("a", "b"), Ok(()));
}

#[test]
fn expense_type_with_a_name_in_use_is_still_built() {
    let first = ExpenseType::new(String::from("Food"), String::from("First")).unwrap();
    let second = ExpenseType::new(String::from("Food"), String::from("Second")).unwrap();
    assert_eq!(first.name(), second.name());
    assert_ne!(first.id(), second.id());
}

#[test]
fn expense_type_is_restored_field_for_field() {
    let built = ExpenseType::new(String::from("Food"), String::from("Dining")).unwrap();
    let again = ExpenseType::restore(
        built.id(),
        String::from(built.name()),
        String::from(built.description()),
    )
    .unwrap();
    assert_eq!(again.id(), built.id());
    assert_eq!(again.name(), "Food");
    assert_eq!(again.description(), "Dining");
    assert_eq!(
        ExpenseType::restore(built.id(), String::from("Food"), String::from("\t")).unwrap_err(),
        ExpenseTypeValidationError::MissingDescription
    );
}

// ---- expense entries ----

#[test]
fn expense_entry_is_built_from_sound_values() {
    let date = Timestamp::new(1_727_785_845, 0);
    let entry = ExpenseEntry::new(
        vec![share(1, 12.5), share(2, -12.5)],
        some_type(),
        String::from("I bought something today."),
        Some(date),
    )
    .unwrap();
    assert_eq!(entry.cost_shares().len(), 2);
    assert_eq!(entry.cost_shares()[0], share(1, 12.5));
    assert_eq!(entry.cost_shares()[1], share(2, -12.5));
    assert_eq!(f64::from_bits(entry.cost_shares()[1].amount.to_bits()), -12.5);
    assert_eq!(entry.expense_type(), some_type());
    assert_eq!(entry.description(), "I bought something today.");
    assert_eq!(entry.expense_date(), date);
    assert!(!entry.id().is_nil());
}

#[test]
fn expense_entry_without_shares_is_rejected() {
    assert_eq!(
        ExpenseEntry::new(vec![], some_type(), String::from("something"), None).unwrap_err(),
        ExpenseEntryValidationError::MissingCostShares
    );
    // Whatever else is wrong, the missing shares are reported.
    assert_eq!(
        ExpenseEntry::new(vec![], EntityId::nil(), String::from(""), None).unwrap_err(),
        ExpenseEntryValidationError::MissingCostShares
    );
}

#[test]
fn expense_entry_with_repeated_bearer_is_rejected() {
    assert_eq!(
        ExpenseEntry::new(
            vec![share(7, 12.5), share(7, -12.5)],
            some_type(),
            String::from("something"),
            None
        )
        .unwrap_err(),
        ExpenseEntryValidationError::DuplicateCostBearerIds(EntityId::from_u128(7))
    );
    // Not next to each other, and whatever the amounts.
    assert_eq!(
        ExpenseEntry::new(
            vec![share(7, 1.0), share(8, 2.0), share(9, 3.0), share(8, 2.0)],
            some_type(),
            String::from("something"),
            None
        )
        .unwrap_err(),
        ExpenseEntryValidationError::DuplicateCostBearerIds(EntityId::from_u128(8))
    );
}

#[test]
fn repeated_bearer_is_found_before_the_zero_amount_of_the_same_share() {
    assert_eq!(
        check_cost_shares(&vec![share(7, 1.0), share(7, 0.0)]),
        Err(ExpenseEntryValidationError::DuplicateCostBearerIds(EntityId::from_u128(7)))
    );
}

#[test]
fn malformed_share_that_comes_first_hides_a_repeated_bearer() {
    assert_eq!(
        check_cost_shares(&vec![share(7, 0.0), share(7, 1.0)]),
        Err(ExpenseEntryValidationError::MalformedCostShares)
    );
    assert_eq!(
        check_cost_shares(&vec![share(5, 0.0), share(7, 1.0), share(7, 2.0)]),
        Err(ExpenseEntryValidationError::MalformedCostShares)
    );
    assert_eq!(
        check_cost_shares(&vec![share(0, 1.0), share(0, 1.0)]),
        Err(ExpenseEntryValidationError::MalformedCostShares)
    );
}

#[test]
fn repeated_bearer_that_comes_first_hides_a_malformed_share() {
    assert_eq!(
        check_cost_shares(&vec![share(7, 1.0), share(7, 1.0), share(8, 0.0)]),
        Err(ExpenseEntryValidationError::DuplicateCostBearerIds(EntityId::from_u128(7)))
    );
}

#[test]
fn expense_entry_with_zero_amount_is_rejected() {
    for zero in [0.0f64, -0.0] {
        assert_eq!(
            ExpenseEntry::new(vec![share(7, zero)], some_type(), String::from("something"), None)
                .unwrap_err(),
            ExpenseEntryValidationError::MalformedCostShares
        );
        assert_eq!(
            ExpenseEntry::new(
                vec![share(7, 3.0), share(8, zero)],
                some_type(),
                String::from("something"),
                None
            )
            .unwrap_err(),
            ExpenseEntryValidationError::MalformedCostShares
        );
    }
}

#[test]
fn expense_entry_with_nil_bearer_is_rejected() {
    assert_eq!(
        ExpenseEntry::new(vec![share(0, 12.5)], some_type(), String::from("something"), None)
            .unwrap_err(),
        ExpenseEntryValidationError::MalformedCostShares
    );
}

#[test]
fn expense_entry_with_nil_type_is_rejected() {
    assert_eq!(
        ExpenseEntry::new(vec![share(7, 12.5)], EntityId::nil(), String::from("something"), None)
            .unwrap_err(),
        ExpenseEntryValidationError::MissingExpenseType
    );
}

#[test]
fn expense_entry_without_description_is_rejected() {
    for description in ["", "   \t  "] {
        assert_eq!(
            ExpenseEntry::new(vec![share(7, 12.5)], some_type(), String::from(description), None)
                .unwrap_err(),
            ExpenseEntryValidationError::MissingDescription
        );
    }
}

#[test]
fn expense_entry_rules_are_checked_in_their_order() {
    // Shares before the expense type.
    assert_eq!(
        ExpenseEntry::validate(&vec![share(7, 0.0)], EntityId::nil(), ""),
        Err(ExpenseEntryValidationError::MalformedCostShares)
    );
    // The expense type before the description.
    assert_eq!(
        ExpenseEntry::validate(&vec![share(7, 1.0)], EntityId::nil(), ""),
        Err(ExpenseEntryValidationError::MissingExpenseType)
    );
    assert_eq!(
        ExpenseEntry::validate(&vec![share(7, 1.0)], some_type(), ""),
        Err(ExpenseEntryValidationError::MissingDescription)
    );
    assert_eq!(ExpenseEntry::validate(&vec![share(7, 1.0)], some_type(), "x"), Ok(()));
}

#[test]
fn shares_without_error_pass_the_check() {
    assert_eq!(check_cost_shares(&vec![]), Ok(()));
    assert_eq!(check_cost_shares(&vec![share(1, 1.0)]), Ok(()));
    assert_eq!(check_cost_shares(&vec![share(1, 1.0), share(2, 1.0), share(3, -1.0)]), Ok(()));
    let many: Vec<CostShare> = (1..=500u128).map(|n| share(n, 1.5)).collect();
    assert_eq!(check_cost_shares(&many), Ok(()));
    let mut repeated = many.clone();
    repeated.push(share(250, 9.0));
    assert_eq!(
        check_cost_shares(&repeated),
        Err(ExpenseEntryValidationError::DuplicateCostBearerIds(EntityId::from_u128(250)))
    );
}

#[test]
fn expense_entry_without_date_is_dated_now() {
    let before = chrono::Utc::now();
    let entry =
        ExpenseEntry::new(vec![share(7, 12.5)], some_type(), String::from("now"), None).unwrap();
    let after = chrono::Utc::now();
    let date = entry.expense_date();
    let before = Timestamp::new(before.timestamp(), before.timestamp_subsec_nanos());
    let after = Timestamp::new(after.timestamp(), after.timestamp_subsec_nanos());
    assert!(before.is_at_or_before(&date));
    assert!(date.is_at_or_before(&after));
    assert!(date.secs >= 0);
    assert!(date.nanos < 1_000_000_000);
}

#[test]
fn expense_entry_is_restored_field_for_field() {
    let built = ExpenseEntry::new(
        vec![share(1, 12.5), share(2, -12.5)],
        some_type(),
        String::from("Groceries"),
        None,
    )
    .unwrap();
    let again = ExpenseEntry::restore(
        built.id(),
        built.expense_date(),
        built.cost_shares().to_vec(),
        built.expense_type(),
        String::from(built.description()),
    )
    .unwrap();
    assert_eq!(again.id(), built.id());
    assert_eq!(again.expense_date(), built.expense_date());
    assert_eq!(again.cost_shares(), built.cost_shares());
    assert_eq!(again.expense_type(), built.expense_type());
    assert_eq!(again.description(), built.description());
    assert_eq!(
        ExpenseEntry::restore(
            built.id(),
            built.expense_date(),
            vec![],
            built.expense_type(),
            String::from("Groceries")
        )
        .unwrap_err(),
        ExpenseEntryValidationError::MissingCostShares
    );
}
