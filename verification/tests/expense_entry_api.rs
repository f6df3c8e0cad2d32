use std::sync::Arc;

use chrono::{TimeZone, Utc};
use shared_expenses::api::expense_entry as api;
use shared_expenses::domain::cost_share::{Amount, CostShare};
use shared_expenses::domain::expense_entry::ExpenseEntry;
use shared_expenses::identifier::EntityId;
use shared_expenses::repository::sqliterepository::expense_entry::{
    ExpenseEntryReadSqliteRepository, ExpenseEntryWriteSqliteRepository,
};
use shared_expenses::repository::sqliterepository::known_record_id;
use shared_expenses::service::application_error::ApplicationError;
use shared_expenses::service::expense_entry::{ExpenseEntryNew, ExpenseEntryService};
use shared_expenses::timestamp::Timestamp;
use uuid::Uuid;

type EntryService =
    ExpenseEntryService<ExpenseEntryReadSqliteRepository, ExpenseEntryWriteSqliteRepository>;

fn entry_service() -> EntryService {
    ExpenseEntryService::new(
        Arc::new(ExpenseEntryReadSqliteRepository::new()),
        Arc::new(ExpenseEntryWriteSqliteRepository::new()),
    )
}

fn fresh_uuid() -> EntityId {
    EntityId::from_u128(Uuid::new_v4().as_u128())
}

fn nil_uuid() -> EntityId {
    EntityId::from_u128(Uuid::nil().as_u128())
}

fn unknown_entry_id() -> EntityId {
    EntityId::from_u128(0x0000_0000_0000_4000_8000_0000_0000_0003)
}

fn entry_share(cost_bearer_id: EntityId, amount: f64) -> CostShare {
    CostShare { cost_bearer_id, amount: Amount::from_bits(amount.to_bits()) }
}

fn amount_of(share: &CostShare) -> f64 {
    f64::from_bits(share.amount.to_bits())
}

fn entry_status_and_body(res: Result<ExpenseEntry, ApplicationError>) -> (u16, String) {
    let response = res.unwrap_err().into_response();
    (response.status, response.body)
}

fn entry_post_fails(
    cost_shares: Vec<CostShare>,
    expense_type: EntityId,
    description: &str,
) -> (u16, String) {
    let dto = ExpenseEntryNew {
        cost_shares,
        expense_type,
        description: String::from(description),
        expense_date: None,
    };
    entry_status_and_body(api::expense_entry_post(&entry_service(), dto))
}

#[test]
fn expense_entry_get() {
    let entry = api::expense_entry_get(&entry_service(), known_record_id()).unwrap();
    assert_eq!(entry.cost_shares().len(), 1);
    assert_eq!(amount_of(entry.cost_shares().first().unwrap()), 12.5);
    assert!(!entry.expense_type().is_nil());
    assert_eq!(entry.description(), "Some Description");
}

#[test]
fn expense_entry_get_fails_not_found() {
    let (status, body) =
        entry_status_and_body(api::expense_entry_get(&entry_service(), unknown_entry_id()));
    assert_eq!(status, 404);
    assert_eq!(body, "Expense entry not found.");
}

#[test]
fn expense_entry_post() {
    let cost_uuid = fresh_uuid();
    let expense_type_uuid = fresh_uuid();

    let new_expense_entry = ExpenseEntryNew {
        cost_shares: vec![entry_share(cost_uuid, 12.5)],
        expense_type: expense_type_uuid,
        description: String::from("I bought something today."),
        expense_date: None,
    };
    let entry = api::expense_entry_post(&entry_service(), new_expense_entry).unwrap();

    assert_eq!(entry.cost_shares().len(), 1);
    assert_eq!(entry.cost_shares()[0].cost_bearer_id, cost_uuid);
    assert_eq!(amount_of(&entry.cost_shares()[0]), 12.5);
    assert_eq!(entry.expense_type(), expense_type_uuid);
    assert_eq!(entry.description(), "I bought something today.");

    let second_cost_uuid = fresh_uuid();
    let new_expense_entry = ExpenseEntryNew {
        cost_shares: vec![entry_share(cost_uuid, 12.5), entry_share(second_cost_uuid, -12.5)],
        expense_type: expense_type_uuid,
        description: String::from("I bought something today."),
        expense_date: None,
    };
    let entry = api::expense_entry_post(&entry_service(), new_expense_entry).unwrap();

    assert_eq!(entry.cost_shares().len(), 2);
    assert_eq!(entry.cost_shares()[0].cost_bearer_id, cost_uuid);
    assert_eq!(amount_of(&entry.cost_shares()[0]), 12.5);
    assert_eq!(entry.cost_shares()[1].cost_bearer_id, second_cost_uuid);
    assert_eq!(amount_of(&entry.cost_shares()[1]), -12.5);

    assert_eq!(entry.expense_type(), expense_type_uuid);
    assert_eq!(entry.description(), "I bought something today.");
}

#[test]
fn expense_entry_post_with_explicit_expense_date() {
    let cost_uuid = fresh_uuid();
    let expense_type_uuid = fresh_uuid();

    // fixed date for deterministic assertion
    let explicit = Utc.with_ymd_and_hms(2024, 10, 1, 12, 30, 45).unwrap();
    let explicit_date = Timestamp::new(explicit.timestamp(), explicit.timestamp_subsec_nanos());

    let new_expense_entry = ExpenseEntryNew {
        cost_shares: vec![entry_share(cost_uuid, 12.5)],
        expense_type: expense_type_uuid,
        description: String::from("Dated explicitly"),
        expense_date: Some(explicit_date),
    };
    let entry = api::expense_entry_post(&entry_service(), new_expense_entry).unwrap();

    assert_eq!(entry.expense_date(), explicit_date);
    assert_eq!(entry.expense_type(), expense_type_uuid);
    assert_eq!(entry.description(), "Dated explicitly");
    assert_eq!(entry.cost_shares().len(), 1);
    assert_eq!(entry.cost_shares()[0].cost_bearer_id, cost_uuid);
    assert_eq!(amount_of(&entry.cost_shares()[0]), 12.5);
}

#[test]
fn expense_entry_post_with_none_uses_now() {
    let cost_uuid = fresh_uuid();
    let expense_type_uuid = fresh_uuid();

    let before = Utc::now();
    let new_expense_entry = ExpenseEntryNew {
        cost_shares: vec![entry_share(cost_uuid, 12.5)],
        expense_type: expense_type_uuid,
        description: String::from("Implicit now date"),
        expense_date: None,
    };
    let entry = api::expense_entry_post(&entry_service(), new_expense_entry).unwrap();
    let after = Utc::now();

    let date = entry.expense_date();
    let ts = Utc.timestamp_opt(date.secs, date.nanos).unwrap();
    assert!(ts >= before && ts <= after, "timestamp {ts} not within [{before}, {after}]");
    assert_eq!(entry.expense_type(), expense_type_uuid);
    assert_eq!(entry.description(), "Implicit now date");
    assert_eq!(entry.cost_shares().len(), 1);
    assert_eq!(entry.cost_shares()[0].cost_bearer_id, cost_uuid);
    assert_eq!(amount_of(&entry.cost_shares()[0]), 12.5);
}

#[test]
fn expense_entry_post_fails_nil_cost_bearer_id() {
    let (status, body) =
        entry_post_fails(vec![entry_share(nil_uuid(), 12.5)], fresh_uuid(), "something something");
    assert_eq!(status, 422);
    assert_eq!(body, "Json without valid cost shares.");
}

#[test]
fn expense_entry_post_fails_duplicate_cost_bearer_ids() {
    let cost_bearer_uuid = fresh_uuid();
    let (status, body) = entry_post_fails(
        vec![entry_share(cost_bearer_uuid, 12.5), entry_share(cost_bearer_uuid, -12.5)],
        fresh_uuid(),
        "something something",
    );
    assert_eq!(status, 422);
    assert_eq!(body, "Json without valid cost shares.");
}

#[test]
fn expense_entry_post_fails_invalid_cost_amount() {
    let (status, body) =
        entry_post_fails(vec![entry_share(fresh_uuid(), 0.0)], fresh_uuid(), "something something");
    assert_eq!(status, 422);
    assert_eq!(body, "Json without valid cost shares.");
}

#[test]
fn expense_entry_post_fails_empty_cost_shares() {
    let (status, body) = entry_post_fails(vec![], fresh_uuid(), "something something");
    assert_eq!(status, 422);
    assert_eq!(body, "Json without valid cost shares.");
}

#[test]
fn expense_entry_post_fails_nil_expense_type() {
    let (status, body) =
        entry_post_fails(vec![entry_share(fresh_uuid(), 12.5)], nil_uuid(), "Some description");
    assert_eq!(status, 422);
    assert_eq!(body, "Json without valid expense id.");
}

#[test]
fn expense_entry_post_fails_invalid_description() {
    let cost_bearer_uuid = fresh_uuid();
    let expense_uuid = fresh_uuid();
    let (status, body) =
        entry_post_fails(vec![entry_share(cost_bearer_uuid, 12.5)], expense_uuid, "");
    assert_eq!(status, 422);
    assert_eq!(body, "Json without valid description.");

    let (status, body) =
        entry_post_fails(vec![entry_share(cost_bearer_uuid, 12.5)], expense_uuid, "   \t  ");
    assert_eq!(status, 422);
    assert_eq!(body, "Json without valid description.");
}

#[test]
fn expense_entry_update() {
    let cost_uuid = fresh_uuid();
    let dto = ExpenseEntryNew {
        cost_shares: vec![entry_share(cost_uuid, 3.25)],
        expense_type: fresh_uuid(),
        description: String::from("Corrected"),
        expense_date: Some(Timestamp::new(1_700_000_000, 0)),
    };
    let entry = api::expense_entry_update(&entry_service(), known_record_id(), dto).unwrap();
    assert_eq!(entry.description(), "Corrected");
    assert_eq!(entry.expense_date(), Timestamp::new(1_700_000_000, 0));
    assert_eq!(entry.cost_shares()[0].cost_bearer_id, cost_uuid);
}

#[test]
fn expense_entry_update_fails() {
    let dto = ExpenseEntryNew {
        cost_shares: vec![entry_share(fresh_uuid(), 3.25)],
        expense_type: fresh_uuid(),
        description: String::from("Corrected"),
        expense_date: None,
    };
    let (status, body) =
        entry_status_and_body(api::expense_entry_update(&entry_service(), unknown_entry_id(), dto));
    assert_eq!(status, 404);
    assert_eq!(body, "Expense entry not found.");
    for id in [known_record_id(), unknown_entry_id()] {
        let dto = ExpenseEntryNew {
            cost_shares: vec![],
            expense_type: fresh_uuid(),
            description: String::from("Corrected"),
            expense_date: None,
        };
        let (status, body) =
            entry_status_and_body(api::expense_entry_update(&entry_service(), id, dto));
        assert_eq!(status, 422);
        assert_eq!(body, "Json without valid cost shares.");
    }
}

#[test]
fn expense_entry_delete() {
    let status = api::expense_entry_delete(&entry_service(), known_record_id()).unwrap();
    assert_eq!(status, 204);
}

#[test]
fn expense_entry_delete_fails() {
    let response = api::expense_entry_delete(&entry_service(), unknown_entry_id())
        .unwrap_err()
        .into_response();
    assert_eq!(response.status, 404);
    assert_eq!(response.body, "Expense entry not found.");
}
