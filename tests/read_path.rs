use sheets::RefreshAccessTokenError;
use sheets::{
    bearer_header, check_read_status, CreateGetValues, ExpenseError, GetValuesError, Month,
    PropertyError, ReservationError, RowError, UserError,
};

#[test]
fn forbidden_read_is_missing_permissions() {
    let result = check_read_status(403, "The caller does not have permission");
    assert_eq!(result, Err(GetValuesError::MissingPermissions));
    assert_eq!(GetValuesError::MissingPermissions.status_code(), 403);
}

#[test]
fn other_failures_are_request_failures() {
    assert_eq!(
        check_read_status(500, "backend error"),
        Err(GetValuesError::RequestFailure("status 500: backend error".to_string()))
    );
    assert_eq!(
        check_read_status(404, ""),
        Err(GetValuesError::RequestFailure("status 404: ".to_string()))
    );
    assert_eq!(check_read_status(200, "ok"), Ok(()));
    assert_eq!(check_read_status(204, ""), Ok(()));
}

#[test]
fn read_url_and_header() {
    let params = CreateGetValues { spreadsheet_id: "abc".to_string(), range: "Expenses!A:H".to_string() };
    assert_eq!(params.url(), "https://sheets.googleapis.com/v4/spreadsheets/abc/values/Expenses!A:H");
    assert_eq!(bearer_header("tok"), "Bearer tok");
}

#[test]
fn get_values_error_messages() {
    assert_eq!(
        GetValuesError::RequestFailure("x".to_string()).message(),
        "failed to get spreadsheet values: x"
    );
    assert_eq!(
        GetValuesError::MissingPermissions.message(),
        "missing required permissions to view this resource"
    );
    assert_eq!(GetValuesError::InvalidResponse("y".to_string()).status_code(), 500);
}

#[test]
fn user_errors_from_status() {
    assert_eq!(UserError::from_status(400, "u1", String::new()), UserError::BadId("u1".to_string()));
    assert_eq!(UserError::from_status(401, "u1", String::new()), UserError::InvalidApiKey);
    assert_eq!(UserError::from_status(404, "u1", String::new()), UserError::NotFound("u1".to_string()));
    assert_eq!(
        UserError::from_status(502, "u1", "bad gateway".to_string()),
        UserError::RequestFailure("bad gateway".to_string())
    );
}

#[test]
fn user_error_messages_and_statuses() {
    assert_eq!(UserError::BadId("u1".to_string()).message(), "malformed user id: u1");
    assert_eq!(UserError::NotFound("u1".to_string()).message(), "no user with id u1");
    assert_eq!(UserError::InvalidApiKey.message(), "the api key used was rejected");
    assert_eq!(UserError::BadId(String::new()).status_code(), 400);
    assert_eq!(UserError::NotFound(String::new()).status_code(), 404);
    assert_eq!(UserError::InvalidApiKey.status_code(), 500);
}

#[test]
fn property_error_messages_and_statuses() {
    assert_eq!(PropertyError::BadId("p".to_string()).message(), "malformed property id: p");
    assert_eq!(PropertyError::NotFound("p".to_string()).message(), "no property with id p");
    assert_eq!(PropertyError::RequestFailure("down".to_string()).message(), "down");
    assert_eq!(PropertyError::BadId(String::new()).status_code(), 400);
    assert_eq!(PropertyError::NotFound(String::new()).status_code(), 404);
}

#[test]
fn expense_and_reservation_errors() {
    assert_eq!(ExpenseError::RequestFailure("down".to_string()).message(), "down");
    assert_eq!(
        ExpenseError::InvalidRow(RowError::InvalidAmount { row: 4, column: 3 }).message(),
        "row 4, column 3: not an amount"
    );
    assert_eq!(ExpenseError::RequestFailure(String::new()).status_code(), 500);
    assert_eq!(
        ReservationError::SpreadsheetNotFound(2023, "abc".to_string()).message(),
        "year 2023 spreadsheet not found for property with id abc"
    );
    assert_eq!(
        ReservationError::SpreadsheetNotFound(-5, "abc".to_string()).message(),
        "year -5 spreadsheet not found for property with id abc"
    );
    assert_eq!(ReservationError::InvalidMonth.message(), "invalid value provided for month");
    assert_eq!(ReservationError::InvalidMonth.status_code(), 400);
    assert_eq!(
        ReservationError::InvalidRow(RowError::ColumnCount { row: 10 }).message(),
        "row 10 does not have the columns of its sheet"
    );
    assert_eq!(
        RowError::InvalidDate { row: 0, column: 1 }.message(),
        "row 0, column 1: not a date"
    );
}

#[test]
fn months_by_number() {
    assert_eq!(Month::from_number(1), Ok(Month::January));
    assert_eq!(Month::from_number(12), Ok(Month::December));
    assert_eq!(Month::from_number(0), Err("expected value to be between 1 and 12"));
    assert_eq!(Month::from_number(13), Err("expected value to be between 1 and 12"));
    assert_eq!(Month::September.to_string(), "September");
}

#[test]
fn credential_errors_keep_their_kind() {
    assert_eq!(
        GetValuesError::from_token_error(RefreshAccessTokenError::MalformedCredentials),
        GetValuesError::MalformedCredentials
    );
    assert_eq!(
        GetValuesError::from_token_error(RefreshAccessTokenError::RequestFailure("x".to_string())),
        GetValuesError::RequestFailure("x".to_string())
    );
    assert_eq!(
        GetValuesError::MalformedCredentials.message(),
        "the service-account private key could not sign"
    );
}
