use shared_expenses::api::error_code::{
    reply_to_removal, Response, STATUS_BAD_REQUEST, STATUS_NOT_FOUND, STATUS_NO_CONTENT,
    STATUS_UNPROCESSABLE_ENTITY,
};
use shared_expenses::api::routes::handle_routing_error;
use shared_expenses::domain::cost_bearer::CostBearerValidationError;
use shared_expenses::domain::expense_entry::ExpenseEntryValidationError;
use shared_expenses::domain::expense_type::ExpenseTypeValidationError;
use shared_expenses::identifier::EntityId;
use shared_expenses::service::application_error::{ApplicationError, ApplicationErrorType};

#[test]
fn cost_bearer_errors_have_their_messages() {
    let e = ApplicationError::from(CostBearerValidationError::MissingName);
    assert_eq!(e.error_type, ApplicationErrorType::ValidationFailed);
    assert_eq!(e.message, "Json without valid name.");
    let e = ApplicationError::from(CostBearerValidationError::InvalidDate);
    assert_eq!(e.error_type, ApplicationErrorType::ValidationFailed);
    assert_eq!(e.message, "Json without valid date.");
}

#[test]
fn expense_type_errors_have_their_messages() {
    let e = ApplicationError::from(ExpenseTypeValidationError::MissingName);
    assert_eq!(e.error_type, ApplicationErrorType::ValidationFailed);
    assert_eq!(e.message, "Json without valid name.");
    let e = ApplicationError::from(ExpenseTypeValidationError::MissingDescription);
    assert_eq!(e.error_type, ApplicationErrorType::ValidationFailed);
    assert_eq!(e.message, "Json without valid description.");
    let e = ApplicationError::from(ExpenseTypeValidationError::DuplicateName);
    assert_eq!(e.error_type, ApplicationErrorType::ValidationFailed);
    assert_eq!(e.message, "Expense type with this name already exists.");
}

#[test]
fn expense_entry_errors_have_their_messages() {
    let id = EntityId::from_u128(42);
    let cases = [
        (ExpenseEntryValidationError::MissingCostShares, "Json without valid cost shares."),
        (ExpenseEntryValidationError::MalformedCostShares, "Json without valid cost shares."),
        (ExpenseEntryValidationError::InvalidCostBearerId(id), "Json without valid cost shares."),
        (ExpenseEntryValidationError::DuplicateCostBearerIds(id), "Json without valid cost shares."),
        (ExpenseEntryValidationError::MissingExpenseType, "Json without valid expense id."),
        (ExpenseEntryValidationError::InvalidExpenseTypeId(id), "Json without valid expense id."),
        (ExpenseEntryValidationError::MissingDescription, "Json without valid description."),
    ];
    for (err, message) in cases {
        let e = ApplicationError::from(err);
        assert_eq!(e.error_type, ApplicationErrorType::ValidationFailed);
        assert_eq!(e.message, message);
    }
}

#[test]
fn application_errors_are_made_by_kind() {
    let e = ApplicationError::not_found("Expense entry not found.");
    assert_eq!(e.error_type, ApplicationErrorType::NotFound);
    assert_eq!(e.message, "Expense entry not found.");
    let e = ApplicationError::validation_failed("Json without valid name.");
    assert_eq!(e.error_type, ApplicationErrorType::ValidationFailed);
    assert_eq!(e.message, "Json without valid name.");
}

#[test]
fn application_errors_answer_with_the_status_of_their_kind() {
    let Response { status, body } =
        ApplicationError::not_found("Cost Bearer not found.").into_response();
    assert_eq!(status, 404);
    assert_eq!(status, STATUS_NOT_FOUND);
    assert_eq!(body, "Cost Bearer not found.");
    let Response { status, body } =
        ApplicationError::validation_failed("Json without valid date.").into_response();
    assert_eq!(status, 422);
    assert_eq!(status, STATUS_UNPROCESSABLE_ENTITY);
    assert_eq!(body, "Json without valid date.");
}

#[test]
fn status_codes_are_the_usual_ones() {
    assert_eq!(STATUS_NO_CONTENT, 204);
    assert_eq!(STATUS_BAD_REQUEST, 400);
    assert_eq!(STATUS_NOT_FOUND, 404);
    assert_eq!(STATUS_UNPROCESSABLE_ENTITY, 422);
}

#[test]
fn unknown_path_is_a_bad_request_that_names_the_path() {
    let response = handle_routing_error("/nowhere");
    assert_eq!(response.status, 400);
    assert_eq!(response.body, "No such endpoint: /nowhere");
    let response = handle_routing_error("");
    assert_eq!(response.status, 400);
    assert_eq!(response.body, "No such endpoint: ");
    let response = handle_routing_error("/cost_bearers/x/y");
    assert_eq!(response.body, "No such endpoint: /cost_bearers/x/y");
}

#[test]
fn removal_is_answered_with_no_content_or_with_the_error() {
    assert_eq!(reply_to_removal(Ok(())).unwrap(), 204);
    let err = reply_to_removal(Err(ApplicationError::not_found("Expense type not found.")))
        .unwrap_err();
    assert_eq!(err.error_type, ApplicationErrorType::NotFound);
    assert_eq!(err.message, "Expense type not found.");
    let err = reply_to_removal(Err(ApplicationError::validation_failed("No.")))
        .unwrap_err();
    assert_eq!(err.error_type, ApplicationErrorType::ValidationFailed);
    assert_eq!(err.message, "No.");
}
