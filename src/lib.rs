//! A client library for reading spreadsheet values with a service-account
//! credential, and for turning the rows it reads into typed records.
//!
//! The network exchanges are left to the caller: the library decides when a
//! token must be refreshed, signs the assertion, builds each request, judges
//! each response, and normalizes the rows that come back.

pub mod amount;
pub mod credentials;
pub mod datetime;
pub mod errors;
pub mod jwt;
pub mod model;
pub mod rows;
pub mod scope;
pub mod text;
pub mod token;
pub mod values;

pub use amount::{parse_amount, Amount};
pub use credentials::ServiceAccountKey;
pub use datetime::{parse_sheet_date, try_parse_timestamp, DateTime};
pub use errors::{ExpenseError, PropertyError, ReservationError, UserError};
pub use jwt::sign_assertion;
pub use model::{
    EmailAddress, Expense, ExpenseSheet, Month, PhoneNumber, Property, Reservation, User,
};
pub use rows::{expense_from_folded_row, expenses_from_rows, expenses_in_month, reservation_range, reservations_from_rows, RowError};
pub use scope::Scope;
pub use text::normalize_price;
pub use token::{check_exchange_status, AccessToken, Client, ExchangeOutcome, RefreshAccessTokenError, TokenStep};
pub use values::{bearer_header, check_read_status, CreateGetValues, Dimension, GetValuesError, ValueRange};
