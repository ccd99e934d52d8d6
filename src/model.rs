//! The records this crate produces and the objects around them.

use vstd::prelude::*;
use vstd::string::*;

use crate::amount::Amount;
use crate::datetime::DateTime;

verus! {

/// A spreadsheet of expenses for one year.
#[derive(Debug, Clone)]
pub struct ExpenseSheet {}

/// A user as the identity service describes them.
#[derive(Debug, Clone)]
pub struct User {
    pub id: String,
    pub first_name: Option<String>,
    pub last_name: Option<String>,
    pub email_addresses: Vec<EmailAddress>,
    pub phone_numbers: Vec<PhoneNumber>,
}

#[derive(Debug, Clone)]
pub struct EmailAddress {
    pub email_address: String,
}

#[derive(Debug, Clone)]
pub struct PhoneNumber {
    pub phone_numbers: String,
}

/// A rental property.
#[derive(Debug, Clone)]
pub struct Property {
    pub id: String,
    pub name: String,
    pub address: Option<String>,
}

/// One expense read from an expense sheet.
#[derive(Debug)]
pub struct Expense {
    pub amount: Amount,
    pub description: String,
    pub timestamp: DateTime,
    pub receipt_link: String,
    pub merchant: String,
    pub buyers_name: String,
}

/// The value of an `Expense`.
pub struct ExpenseView {
    pub amount: Amount,
    pub description: Seq<char>,
    pub timestamp: DateTime,
    pub receipt_link: Seq<char>,
    pub merchant: Seq<char>,
    pub buyers_name: Seq<char>,
}

impl View for Expense {
    type V = ExpenseView;

    open spec fn view(&self) -> ExpenseView {
        ExpenseView {
            amount: self.amount,
            description: self.description@,
            timestamp: self.timestamp,
            receipt_link: self.receipt_link@,
            merchant: self.merchant@,
            buyers_name: self.buyers_name@,
        }
    }
}

/// The values of a sequence of expenses.
pub open spec fn expense_views(s: Seq<Expense>) -> Seq<ExpenseView> {
    s.map_values(|e: Expense| e@)
}

/// One reservation read from a reservation sheet.
#[derive(Debug)]
pub struct Reservation {
    pub platform: String,
    pub payout_date: DateTime,
    pub check_in: DateTime,
    pub check_out: DateTime,
    pub revenue: Amount,
    pub management_fee: Amount,
    pub net_profit: Amount,
}

/// The value of a `Reservation`.
pub struct ReservationView {
    pub platform: Seq<char>,
    pub payout_date: DateTime,
    pub check_in: DateTime,
    pub check_out: DateTime,
    pub revenue: Amount,
    pub management_fee: Amount,
    pub net_profit: Amount,
}

impl View for Reservation {
    type V = ReservationView;

    open spec fn view(&self) -> ReservationView {
        ReservationView {
            platform: self.platform@,
            payout_date: self.payout_date,
            check_in: self.check_in,
            check_out: self.check_out,
            revenue: self.revenue,
            management_fee: self.management_fee,
            net_profit: self.net_profit,
        }
    }
}

/// The values of a sequence of reservations.
pub open spec fn reservation_views(s: Seq<Reservation>) -> Seq<ReservationView> {
    s.map_values(|r: Reservation| r@)
}

/// A month of the year.
#[derive(Debug, Clone, Copy, PartialEq, Eq, Structural)]
pub enum Month {
    January,
    February,
    March,
    April,
    May,
    June,
    July,
    August,
    September,
    October,
    November,
    December,
}

/// The month numbered `n`, January being 1.
pub open spec fn month_numbered(n: int) -> Option<Month> {
    if n == 1 {
        Some(Month::January)
    } else if n == 2 {
        Some(Month::February)
    } else if n == 3 {
        Some(Month::March)
    } else if n == 4 {
        Some(Month::April)
    } else if n == 5 {
        Some(Month::May)
    } else if n == 6 {
        Some(Month::June)
    } else if n == 7 {
        Some(Month::July)
    } else if n == 8 {
        Some(Month::August)
    } else if n == 9 {
        Some(Month::September)
    } else if n == 10 {
        Some(Month::October)
    } else if n == 11 {
        Some(Month::November)
    } else if n == 12 {
        Some(Month::December)
    } else {
        None
    }
}

/// The English name of a month, which is also the name of its sheet.
pub open spec fn month_name(m: Month) -> Seq<char> {
    match m {
        Month::January => "January"@,
        Month::February => "February"@,
        Month::March => "March"@,
        Month::April => "April"@,
        Month::May => "May"@,
        Month::June => "June"@,
        Month::July => "July"@,
        Month::August => "August"@,
        Month::September => "September"@,
        Month::October => "October"@,
        Month::November => "November"@,
        Month::December => "December"@,
    }
}

/// Why a number names no month.
pub const MONTH_RANGE_ERROR: &'static str = "expected value to be between 1 and 12";

impl Month {
    /// The month numbered `value`, January being 1; outside 1 to 12, the
    /// error `MONTH_RANGE_ERROR`.
    pub fn from_number(value: u8) -> (r: Result<Month, &'static str>)
        ensures
            match month_numbered(value as int) {
                Some(m) => r == Ok::<Month, &'static str>(m),
                None => r matches Err(e) && e@ == MONTH_RANGE_ERROR@,
            },
    {
        match value {
            1 => Ok(Month::January),
            2 => Ok(Month::February),
            3 => Ok(Month::March),
            4 => Ok(Month::April),
            5 => Ok(Month::May),
            6 => Ok(Month::June),
            7 => Ok(Month::July),
            8 => Ok(Month::August),
            9 => Ok(Month::September),
            10 => Ok(Month::October),
            11 => Ok(Month::November),
            12 => Ok(Month::December),
            _ => Err(MONTH_RANGE_ERROR),
        }
    }

    /// The month's English name.
    pub fn to_string(&self) -> (r: String)
        ensures
            r@ == month_name(*self),
    {
        let name = match self {
            Month::January => "January",
            Month::February => "February",
            Month::March => "March",
            Month::April => "April",
            Month::May => "May",
            Month::June => "June",
            Month::July => "July",
            Month::August => "August",
            Month::September => "September",
            Month::October => "October",
            Month::November => "November",
            Month::December => "December",
        };
        String::from_str(name)
    }
}

} // verus!
