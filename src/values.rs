//! Reading a range of values from the spreadsheet API.
//!
//! The request itself is sent by the caller; this module says where it goes,
//! how it is authorized, and what its status means.

use vstd::prelude::*;
use vstd::string::*;

use crate::text::{decimal, decimal_text, joined};
use crate::token::RefreshAccessTokenError;

verus! {

/// The base URL of the spreadsheet API.
pub const SHEETS_BASE_URL: &'static str = "https://sheets.googleapis.com/v4/spreadsheets";

/// The status code of a refusal for want of permission.
pub const STATUS_FORBIDDEN: u16 = 403;

/// The status code of an unexpected server-side failure.
pub const STATUS_INTERNAL_SERVER_ERROR: u16 = 500;

/// The status code of a malformed request.
pub const STATUS_BAD_REQUEST: u16 = 400;

/// The status code of a request that names nothing that exists.
pub const STATUS_NOT_FOUND: u16 = 404;

/// The status code of a request whose credentials were refused.
pub const STATUS_UNAUTHORIZED: u16 = 401;

/// Which dimension a range of values is laid out along.
#[derive(Debug, Clone, Copy, PartialEq, Eq, Structural)]
pub enum Dimension {
    /// Each inner sequence is a row.
    Rows,
    /// Each inner sequence is a column.
    Columns,
}

/// A range of values as the API returns it.
#[derive(Debug)]
pub struct ValueRange<T> {
    /// The A1 range the values cover.
    pub range: String,
    pub major_dimension: Dimension,
    pub values: Vec<T>,
}

/// What to read: a spreadsheet and an A1 range in it.
#[derive(Debug, Clone)]
pub struct CreateGetValues {
    pub spreadsheet_id: String,
    pub range: String,
}

/// Why a range could not be read.
#[derive(Debug, Clone, PartialEq, Eq)]
pub enum GetValuesError {
    /// The request failed; the text says why.
    RequestFailure(String),
    /// The credentials may not read this spreadsheet.
    MissingPermissions,
    /// The response body does not have the shape asked for.
    InvalidResponse(String),
    /// The service-account private key could not sign the token request.
    MalformedCredentials,
}

/// Whether a status code reports success.
pub open spec fn is_success(status: u16) -> bool {
    200 <= status <= 299
}

/// The URL that reads `range` of `spreadsheet_id`.
pub open spec fn values_url(spreadsheet_id: Seq<char>, range: Seq<char>) -> Seq<char> {
    SHEETS_BASE_URL@ + "/"@ + spreadsheet_id + "/values/"@ + range
}

/// The text of a failed request: its status code and the detail given.
pub open spec fn failure_text(status: u16, detail: Seq<char>) -> Seq<char> {
    "status "@ + decimal(status as int) + ": "@ + detail
}

/// The message of a read error.
pub open spec fn get_values_message(e: GetValuesError) -> Seq<char> {
    match e {
        GetValuesError::RequestFailure(reason) => "failed to get spreadsheet values: "@ + reason@,
        GetValuesError::MissingPermissions => "missing required permissions to view this resource"@,
        GetValuesError::InvalidResponse(detail) => "unexpected response body: "@ + detail@,
        GetValuesError::MalformedCredentials => "the service-account private key could not sign"@,
    }
}

impl CreateGetValues {
    /// The URL of the read.
    pub fn url(&self) -> (r: String)
        ensures
            r@ == values_url(self.spreadsheet_id@, self.range@),
    {
        let mut url = joined(SHEETS_BASE_URL, "/");
        url.append(self.spreadsheet_id.as_str());
        url.append("/values/");
        url.append(self.range.as_str());
        url
    }
}

/// The `Authorization` header value that presents `access_token`.
pub fn bearer_header(access_token: &str) -> (r: String)
    ensures
        r@ == "Bearer "@ + access_token@,
{
    joined("Bearer ", access_token)
}

/// Whether a status code reports success.
pub fn is_success_status(status: u16) -> (r: bool)
    ensures
        r == is_success(status),
{
    200 <= status && status <= 299
}

/// Judges the status of a read: success passes; 403 is `MissingPermissions`;
/// any other status is a `RequestFailure` that gives the status and `detail`.
pub fn check_read_status(status: u16, detail: &str) -> (r: Result<(), GetValuesError>)
    ensures
        is_success(status) ==> r is Ok,
        status == STATUS_FORBIDDEN ==> r == Err::<(), GetValuesError>(
            GetValuesError::MissingPermissions,
        ),
        !is_success(status) && status != STATUS_FORBIDDEN ==> (r matches Err(
            GetValuesError::RequestFailure(text),
        ) && text@ == failure_text(status, detail@)),
{
    if is_success_status(status) {
        Ok(())
    } else if status == STATUS_FORBIDDEN {
        Err(GetValuesError::MissingPermissions)
    } else {
        Err(GetValuesError::RequestFailure(status_failure_text(status, detail)))
    }
}

/// The text of a failed request: its status code and `detail`.
pub fn status_failure_text(status: u16, detail: &str) -> (r: String)
    ensures
        r@ == failure_text(status, detail@),
{
    let mut text = String::from_str("status ");
    let code = decimal_text(status as i128);
    text.append(code.as_str());
    text.append(": ");
    text.append(detail);
    text
}

impl GetValuesError {
    /// The read error for a token that could not be obtained: a failed
    /// exchange stays a request failure, and a key that could not sign stays
    /// a credential error.
    pub fn from_token_error(e: RefreshAccessTokenError) -> (r: GetValuesError)
        ensures
            r == match e {
                RefreshAccessTokenError::RequestFailure(reason) => GetValuesError::RequestFailure(
                    reason,
                ),
                RefreshAccessTokenError::MalformedCredentials => GetValuesError::MalformedCredentials,
            },
    {
        match e {
            RefreshAccessTokenError::RequestFailure(reason) => GetValuesError::RequestFailure(reason),
            RefreshAccessTokenError::MalformedCredentials => GetValuesError::MalformedCredentials,
        }
    }

    /// The error's message.
    pub fn message(&self) -> (r: String)
        ensures
            r@ == get_values_message(*self),
    {
        match self {
            GetValuesError::RequestFailure(reason) => joined(
                "failed to get spreadsheet values: ",
                reason.as_str(),
            ),
            GetValuesError::MissingPermissions => String::from_str(
                "missing required permissions to view this resource",
            ),
            GetValuesError::InvalidResponse(detail) => joined(
                "unexpected response body: ",
                detail.as_str(),
            ),
            GetValuesError::MalformedCredentials => String::from_str(
                "the service-account private key could not sign",
            ),
        }
    }

    /// The HTTP status that reports the error.
    pub fn status_code(&self) -> (r: u16)
        ensures
            r == match self {
                GetValuesError::MissingPermissions => STATUS_FORBIDDEN,
                _ => STATUS_INTERNAL_SERVER_ERROR,
            },
    {
        match self {
            GetValuesError::MissingPermissions => STATUS_FORBIDDEN,
            _ => STATUS_INTERNAL_SERVER_ERROR,
        }
    }
}

} // verus!
