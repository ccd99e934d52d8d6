use sheets::expense_from_folded_row;
use sheets::rows::RowOutcome;
use sheets::{
    expenses_from_rows, expenses_in_month, reservation_range, reservations_from_rows, Amount,
    DateTime, ReservationError, RowError,
};

fn row(cells: &[&str]) -> Vec<String> {
    cells.iter().map(|c| c.to_string()).collect()
}

fn date(year: i32, month: u32, day: u32) -> DateTime {
    DateTime { year, month, day, hour: 0, minute: 0, second: 0, nanosecond: 0 }
}

fn expense_sheet() -> Vec<Vec<String>> {
    vec![
        row(&["Timestamp", "Date", "Property", "Amount", "Description", "Receipt", "Merchant", "Name"]),
        row(&["2023-01-05 14:30:00", "1/5/2023", "Lake House", "$1,234.50", " Dock repair ", "", "Marina", "Ann"]),
        row(&["2023-02-10 09:00:00", "2/10/2023", "Cabin", "$75.25", " Firewood ", "http://r/1", " Depot ", " Bo "]),
        row(&["2023/03/01", "3/1/2023", "cabin", "12", "Cleaning"]),
        row(&[]),
        row(&["01/15/23", "1/15/2023", "CABIN", "$1,000", "Snow removal", "link"]),
    ]
}

#[test]
fn expenses_filter_by_property_ignoring_case() {
    let expenses = expenses_from_rows(&expense_sheet(), "cabin").unwrap();
    assert_eq!(expenses.len(), 3);
    assert_eq!(expenses[0].description, "Firewood");
    assert_eq!(expenses[0].amount, Amount { mantissa: 7525, scale: 2 });
    assert_eq!(expenses[0].receipt_link, "http://r/1");
    assert_eq!(expenses[0].merchant, "Depot");
    assert_eq!(expenses[0].buyers_name, "Bo");
    assert_eq!(expenses[0].timestamp, DateTime { hour: 9, ..date(2023, 2, 10) });
    assert_eq!(expenses[1].description, "Cleaning");
    assert_eq!(expenses[1].amount, Amount { mantissa: 12, scale: 0 });
    assert_eq!(expenses[1].timestamp, date(2023, 3, 1));
    assert_eq!(expenses[1].receipt_link, "");
    assert_eq!(expenses[1].merchant, "");
    assert_eq!(expenses[1].buyers_name, "");
    assert_eq!(expenses[2].description, "Snow removal");
    assert_eq!(expenses[2].amount, Amount { mantissa: 1000, scale: 0 });
    assert_eq!(expenses[2].timestamp, date(2023, 1, 15));
}

#[test]
fn expenses_for_other_property() {
    let expenses = expenses_from_rows(&expense_sheet(), "Lake House").unwrap();
    assert_eq!(expenses.len(), 1);
    assert_eq!(expenses[0].amount, Amount { mantissa: 123450, scale: 2 });
    assert_eq!(expenses[0].description, "Dock repair");
    assert_eq!(expenses[0].timestamp, DateTime { hour: 14, minute: 30, ..date(2023, 1, 5) });
}

#[test]
fn expenses_header_row_is_never_read() {
    let rows = vec![row(&["Timestamp", "Date", "cabin", "Amount", "Description"])];
    assert_eq!(expenses_from_rows(&rows, "cabin").unwrap().len(), 0);
    assert_eq!(expenses_from_rows(&Vec::new(), "cabin").unwrap().len(), 0);
}

#[test]
fn expenses_bad_amount_is_an_error() {
    let mut rows = expense_sheet();
    rows.push(row(&["2023-04-01", "", "Cabin", "twelve", "Oops"]));
    assert_eq!(
        expenses_from_rows(&rows, "cabin").unwrap_err(),
        RowError::InvalidAmount { row: 6, column: 3 }
    );
    // The row belongs to another property, so it is not read.
    assert!(expenses_from_rows(&rows, "lake house").is_ok());
}

#[test]
fn expenses_bad_timestamp_is_an_error() {
    let rows = vec![row(&["h"]), row(&["someday", "", "Cabin", "1", "x"])];
    assert_eq!(
        expenses_from_rows(&rows, "cabin").unwrap_err(),
        RowError::InvalidDate { row: 1, column: 0 }
    );
}

#[test]
fn expenses_short_row_is_an_error() {
    let rows = vec![row(&["h"]), row(&["2023-01-05", "", "Cabin", "1"])];
    assert_eq!(expenses_from_rows(&rows, "cabin").unwrap_err(), RowError::ColumnCount { row: 1 });
    let long = vec![row(&["h"]), row(&["2023-01-05", "", "Cabin", "1", "d", "r", "m", "n", "extra"])];
    assert_eq!(expenses_from_rows(&long, "cabin").unwrap_err(), RowError::ColumnCount { row: 1 });
}

#[test]
fn expenses_by_month() {
    let expenses = expenses_from_rows(&expense_sheet(), "cabin").unwrap();
    let january = expenses_in_month(expenses, 1);
    assert_eq!(january.len(), 1);
    assert_eq!(january[0].description, "Snow removal");
    let expenses = expenses_from_rows(&expense_sheet(), "cabin").unwrap();
    assert_eq!(expenses_in_month(expenses, 13).len(), 0);
}

fn reservation_sheet() -> Vec<Vec<String>> {
    vec![
        row(&["Platform", "Paid", "In", "Out", "Revenue", "Fee", "Net"]),
        row(&[" Airbnb ", "1/20/2023", "1/5/2023", "1/8/2023", "$1,200.00", "$120.00", "$1,080.00"]),
        row(&["#REF!", "1/21/2023", "1/9/2023", "1/10/2023", "$1", "$1", "$1"]),
        row(&["", "1/22/2023", "1/11/2023", "1/12/2023", "$1", "$1", "$1"]),
        row(&["VRBO", "1/30/2023", "1/20/2023", "1/25/2023", "$500", "", "$500"]),
        row(&[]),
        row(&["#REF!"]),
    ]
}

#[test]
fn reservations_skip_deleted_and_empty_platforms() {
    let reservations = reservations_from_rows(&reservation_sheet()).unwrap();
    assert_eq!(reservations.len(), 2);
    assert_eq!(reservations[0].platform, "airbnb");
    assert_eq!(reservations[0].payout_date, date(2023, 1, 20));
    assert_eq!(reservations[0].check_in, date(2023, 1, 5));
    assert_eq!(reservations[0].check_out, date(2023, 1, 8));
    assert_eq!(reservations[0].revenue, Amount { mantissa: 120000, scale: 2 });
    assert_eq!(reservations[0].management_fee, Amount { mantissa: 12000, scale: 2 });
    assert_eq!(reservations[0].net_profit, Amount { mantissa: 108000, scale: 2 });
    assert_eq!(reservations[1].platform, "vrbo");
}

#[test]
fn reservations_missing_fee_is_zero() {
    let reservations = reservations_from_rows(&reservation_sheet()).unwrap();
    assert_eq!(reservations[1].management_fee, Amount { mantissa: 0, scale: 0 });
    assert_eq!(reservations[1].revenue, Amount { mantissa: 500, scale: 0 });
}

#[test]
fn reservations_bad_cells_are_errors() {
    let bad_date = vec![row(&["h"]), row(&["Airbnb", "1/20/2023", "Jan 5", "1/8/2023", "1", "1", "1"])];
    assert_eq!(
        reservations_from_rows(&bad_date).unwrap_err(),
        RowError::InvalidDate { row: 1, column: 2 }
    );
    let bad_fee = vec![row(&["h"]), row(&["Airbnb", "1/20/2023", "1/5/2023", "1/8/2023", "1", "n/a", "1"])];
    assert_eq!(
        reservations_from_rows(&bad_fee).unwrap_err(),
        RowError::InvalidAmount { row: 1, column: 5 }
    );
    let short = vec![row(&["h"]), row(&["Airbnb", "1/20/2023"])];
    assert_eq!(reservations_from_rows(&short).unwrap_err(), RowError::ColumnCount { row: 1 });
}

#[test]
fn reservation_ranges_by_month() {
    assert_eq!(reservation_range(1).unwrap(), "January!A:G");
    assert_eq!(reservation_range(12).unwrap(), "December!A:G");
    assert_eq!(reservation_range(0).unwrap_err(), ReservationError::InvalidMonth);
    assert_eq!(reservation_range(13).unwrap_err(), ReservationError::InvalidMonth);
}

#[test]
fn folded_row_matches_on_folded_names() {
    let r = row(&["2023-02-10 09:00:00", "", "Cabin", "$5", " Wood "]);
    match expense_from_folded_row(&r, "cabin", "cabin", 3) {
        RowOutcome::Keep(e) => {
            assert_eq!(e.amount, Amount { mantissa: 5, scale: 0 });
            assert_eq!(e.description, "Wood");
        }
        _ => panic!("the row should be kept"),
    }
    assert!(matches!(expense_from_folded_row(&r, "cabin", "lake house", 3), RowOutcome::Skip));
    let bad = row(&["2023-02-10", "", "Cabin", "five", "x"]);
    assert!(matches!(
        expense_from_folded_row(&bad, "cabin", "cabin", 3),
        RowOutcome::Fail(RowError::InvalidAmount { row: 3, column: 3 })
    ));
}

#[test]
fn unicode_whitespace_is_trimmed() {
    let rows = vec![
        row(&["h"]),
        row(&["2023-01-05", "", "Cabin", "1", "\u{a0}\u{3000}Rake\u{2009}\n", "\t", " x "]),
    ];
    let expenses = expenses_from_rows(&rows, "cabin").unwrap();
    assert_eq!(expenses[0].description, "Rake");
    assert_eq!(expenses[0].receipt_link, "");
    assert_eq!(expenses[0].merchant, "x");
}
