//! The errors of the operations around the sheets, each with its message and
//! the HTTP status that reports it.

use vstd::prelude::*;
use vstd::string::*;

use crate::rows::RowError;
use crate::text::{decimal, decimal_text, joined};
use crate::values::{
    STATUS_BAD_REQUEST, STATUS_INTERNAL_SERVER_ERROR, STATUS_NOT_FOUND, STATUS_UNAUTHORIZED,
};

verus! {

/// A user could not be read from the identity service.
#[derive(Debug, Clone, PartialEq, Eq)]
pub enum UserError {
    /// An unexpected error occurred while trying to get the data.
    RequestFailure(String),
    /// The user ID provided was malformed.
    BadId(String),
    /// The API key used was rejected.
    InvalidApiKey,
    /// The ID was well formed but matched no user.
    NotFound(String),
}

/// Properties could not be read.
#[derive(Debug, Clone, PartialEq, Eq)]
pub enum PropertyError {
    /// An unexpected error occurred while trying to get the data.
    RequestFailure(String),
    /// The property ID provided was malformed.
    BadId(String),
    /// The ID was well formed but matched no property.
    NotFound(String),
}

/// Expenses could not be read.
#[derive(Debug, Clone, PartialEq, Eq)]
pub enum ExpenseError {
    /// An unexpected error occurred while trying to get the data.
    RequestFailure(String),
    /// A row of the sheet could not be decoded.
    InvalidRow(RowError),
}

/// Reservations could not be read.
#[derive(Debug, Clone, PartialEq, Eq)]
pub enum ReservationError {
    /// An unexpected error occurred while trying to get the data.
    RequestFailure(String),
    /// No spreadsheet is recorded for this year and property id.
    SpreadsheetNotFound(i32, String),
    /// The month number is not between 1 and 12.
    InvalidMonth,
    /// A row of the sheet could not be decoded.
    InvalidRow(RowError),
}

/// The message of a row error.
pub open spec fn row_error_message(e: RowError) -> Seq<char> {
    match e {
        RowError::ColumnCount { row } => "row "@ + decimal(row as int)
            + " does not have the columns of its sheet"@,
        RowError::InvalidAmount { row, column } => "row "@ + decimal(row as int) + ", column "@
            + decimal(column as int) + ": not an amount"@,
        RowError::InvalidDate { row, column } => "row "@ + decimal(row as int) + ", column "@
            + decimal(column as int) + ": not a date"@,
    }
}

pub open spec fn user_error_message(e: UserError) -> Seq<char> {
    match e {
        UserError::RequestFailure(reason) => reason@,
        UserError::BadId(id) => "malformed user id: "@ + id@,
        UserError::InvalidApiKey => "the api key used was rejected"@,
        UserError::NotFound(id) => "no user with id "@ + id@,
    }
}

pub open spec fn property_error_message(e: PropertyError) -> Seq<char> {
    match e {
        PropertyError::RequestFailure(reason) => reason@,
        PropertyError::BadId(id) => "malformed property id: "@ + id@,
        PropertyError::NotFound(id) => "no property with id "@ + id@,
    }
}

pub open spec fn expense_error_message(e: ExpenseError) -> Seq<char> {
    match e {
        ExpenseError::RequestFailure(reason) => reason@,
        ExpenseError::InvalidRow(row) => row_error_message(row),
    }
}

pub open spec fn reservation_error_message(e: ReservationError) -> Seq<char> {
    match e {
        ReservationError::RequestFailure(reason) => reason@,
        ReservationError::SpreadsheetNotFound(year, id) => "year "@ + decimal(year as int)
            + " spreadsheet not found for property with id "@ + id@,
        ReservationError::InvalidMonth => "invalid value provided for month"@,
        ReservationError::InvalidRow(row) => row_error_message(row),
    }
}

impl RowError {
    /// The error's message.
    pub fn message(&self) -> (r: String)
        ensures
            r@ == row_error_message(*self),
    {
        match self {
            RowError::ColumnCount { row } => {
                let mut s = String::from_str("row ");
                let n = decimal_text(*row as i128);
                s.append(n.as_str());
                s.append(" does not have the columns of its sheet");
                s
            },
            RowError::InvalidAmount { row, column } => {
                let mut s = String::from_str("row ");
                let n = decimal_text(*row as i128);
                let c = decimal_text(*column as i128);
                s.append(n.as_str());
                s.append(", column ");
                s.append(c.as_str());
                s.append(": not an amount");
                s
            },
            RowError::InvalidDate { row, column } => {
                let mut s = String::from_str("row ");
                let n = decimal_text(*row as i128);
                let c = decimal_text(*column as i128);
                s.append(n.as_str());
                s.append(", column ");
                s.append(c.as_str());
                s.append(": not a date");
                s
            },
        }
    }
}

impl UserError {
    /// The error for a failed identity-service request about `id`: 400 is
    /// `BadId`, 401 `InvalidApiKey`, 404 `NotFound`, and any other status a
    /// `RequestFailure` carrying `detail`.
    pub fn from_status(status: u16, id: &str, detail: String) -> (r: UserError)
        ensures
            status == STATUS_BAD_REQUEST ==> (r matches UserError::BadId(i) && i@ == id@),
            status == STATUS_UNAUTHORIZED ==> r == UserError::InvalidApiKey,
            status == STATUS_NOT_FOUND ==> (r matches UserError::NotFound(i) && i@ == id@),
            status != STATUS_BAD_REQUEST && status != STATUS_UNAUTHORIZED && status
                != STATUS_NOT_FOUND ==> r == UserError::RequestFailure(detail),
    {
        if status == STATUS_BAD_REQUEST {
            UserError::BadId(String::from_str(id))
        } else if status == STATUS_UNAUTHORIZED {
            UserError::InvalidApiKey
        } else if status == STATUS_NOT_FOUND {
            UserError::NotFound(String::from_str(id))
        } else {
            UserError::RequestFailure(detail)
        }
    }

    /// The error's message.
    pub fn message(&self) -> (r: String)
        ensures
            r@ == user_error_message(*self),
    {
        match self {
            UserError::RequestFailure(reason) => reason.clone(),
            UserError::BadId(id) => joined("malformed user id: ", id.as_str()),
            UserError::InvalidApiKey => String::from_str("the api key used was rejected"),
            UserError::NotFound(id) => joined("no user with id ", id.as_str()),
        }
    }

    /// The HTTP status that reports the error.
    pub fn status_code(&self) -> (r: u16)
        ensures
            r == match self {
                UserError::BadId(_) => STATUS_BAD_REQUEST,
                UserError::NotFound(_) => STATUS_NOT_FOUND,
                _ => STATUS_INTERNAL_SERVER_ERROR,
            },
    {
        match self {
            UserError::RequestFailure(_) => STATUS_INTERNAL_SERVER_ERROR,
            UserError::BadId(_) => STATUS_BAD_REQUEST,
            UserError::InvalidApiKey => STATUS_INTERNAL_SERVER_ERROR,
            UserError::NotFound(_) => STATUS_NOT_FOUND,
        }
    }
}

impl PropertyError {
    /// The error's message.
    pub fn message(&self) -> (r: String)
        ensures
            r@ == property_error_message(*self),
    {
        match self {
            PropertyError::RequestFailure(reason) => reason.clone(),
            PropertyError::BadId(id) => joined("malformed property id: ", id.as_str()),
            PropertyError::NotFound(id) => joined("no property with id ", id.as_str()),
        }
    }

    /// The HTTP status that reports the error.
    pub fn status_code(&self) -> (r: u16)
        ensures
            r == match self {
                PropertyError::BadId(_) => STATUS_BAD_REQUEST,
                PropertyError::NotFound(_) => STATUS_NOT_FOUND,
                _ => STATUS_INTERNAL_SERVER_ERROR,
            },
    {
        match self {
            PropertyError::RequestFailure(_) => STATUS_INTERNAL_SERVER_ERROR,
            PropertyError::BadId(_) => STATUS_BAD_REQUEST,
            PropertyError::NotFound(_) => STATUS_NOT_FOUND,
        }
    }
}

impl ExpenseError {
    /// The error's message.
    pub fn message(&self) -> (r: String)
        ensures
            r@ == expense_error_message(*self),
    {
        match self {
            ExpenseError::RequestFailure(reason) => reason.clone(),
            ExpenseError::InvalidRow(row) => row.message(),
        }
    }

    /// The HTTP status that reports the error.
    pub fn status_code(&self) -> (r: u16)
        ensures
            r == STATUS_INTERNAL_SERVER_ERROR,
    {
        STATUS_INTERNAL_SERVER_ERROR
    }
}

impl ReservationError {
    /// The error's message.
    pub fn message(&self) -> (r: String)
        ensures
            r@ == reservation_error_message(*self),
    {
        match self {
            ReservationError::RequestFailure(reason) => reason.clone(),
            ReservationError::SpreadsheetNotFound(year, id) => {
                let mut s = String::from_str("year ");
                let y = decimal_text(*year as i128);
                s.append(y.as_str());
                s.append(" spreadsheet not found for property with id ");
                s.append(id.as_str());
                s
            },
            ReservationError::InvalidMonth => String::from_str("invalid value provided for month"),
            ReservationError::InvalidRow(row) => row.message(),
        }
    }

    /// The HTTP status that reports the error.
    pub fn status_code(&self) -> (r: u16)
        ensures
            r == match self {
                ReservationError::InvalidMonth => STATUS_BAD_REQUEST,
                _ => STATUS_INTERNAL_SERVER_ERROR,
            },
    {
        match self {
            ReservationError::InvalidMonth => STATUS_BAD_REQUEST,
            _ => STATUS_INTERNAL_SERVER_ERROR,
        }
    }
}

} // verus!
