//! Turns the raw rows of expense and reservation sheets into records.
//!
//! Columns are positional. Row 0 holds the headings and is never read.
//! A row that cannot be decoded is an error for the whole read, reported
//! with its position, never skipped or defaulted.

use vstd::prelude::*;
use vstd::string::*;

use crate::amount::{amount_of, parse_amount, Amount};
use crate::datetime::{parse_sheet_date, sheet_date_of, timestamp_of, try_parse_timestamp};
use crate::errors::ReservationError;
use crate::model::{month_name, month_numbered, Month};
use crate::model::{expense_views, reservation_views, Expense, ExpenseView, Reservation, ReservationView};
use crate::text::{lower_of, normalize_price, strip_currency, to_lowercase, trim, trimmed_of};

verus! {

/// The range of an expense sheet: timestamp, date, property, amount,
/// description, receipt link, merchant and buyer's name.
pub const EXPENSE_RANGE: &'static str = "Expenses!A:H";

/// The marker a sheet shows where a referenced cell was deleted.
pub const DELETED_REFERENCE: &'static str = "#REF!";

/// The fewest cells an expense row has; the last three columns are optional.
pub const EXPENSE_REQUIRED_COLUMNS: usize = 5;

/// The cells of a full expense row.
pub const EXPENSE_COLUMNS: usize = 8;

/// The cells of a reservation row: platform, payout date, check-in,
/// check-out, revenue, management fee and net profit.
pub const RESERVATION_COLUMNS: usize = 7;

/// Why a row could not be decoded; `row` counts from the heading row, 0.
#[derive(Debug, Clone, Copy, PartialEq, Eq, Structural)]
pub enum RowError {
    /// The row does not have the number of cells its sheet lays out.
    ColumnCount { row: usize },
    /// The cell is not a number once currency marks are removed.
    InvalidAmount { row: usize, column: usize },
    /// The cell matches none of the date patterns tried.
    InvalidDate { row: usize, column: usize },
}

/// What becomes of one row.
pub enum RowOutcome<T> {
    Skip,
    Keep(T),
    Fail(RowError),
}

/// A trimmed optional cell; a missing cell reads as empty.
pub open spec fn optional_cell(row: Seq<Seq<char>>, k: int) -> Seq<char> {
    if k < row.len() {
        trimmed_of(row[k])
    } else {
        Seq::empty()
    }
}

/// What becomes of expense row `index` when `property` is asked for.
pub open spec fn expense_outcome(row: Seq<Seq<char>>, property: Seq<char>, index: int) -> RowOutcome<
    ExpenseView,
> {
    expense_outcome_folded(row, lower_of(row[2]), lower_of(property), index)
}

/// What becomes of expense row `index`, given the case-folded property cell
/// of the row and the case-folded property asked for.
pub open spec fn expense_outcome_folded(
    row: Seq<Seq<char>>,
    row_property: Seq<char>,
    property: Seq<char>,
    index: int,
) -> RowOutcome<ExpenseView> {
    if row.len() == 0 {
        RowOutcome::Skip
    } else if row.len() < EXPENSE_REQUIRED_COLUMNS || row.len() > EXPENSE_COLUMNS {
        RowOutcome::Fail(RowError::ColumnCount { row: index as usize })
    } else if row_property != property {
        RowOutcome::Skip
    } else {
        match amount_of(strip_currency(row[3])) {
            None => RowOutcome::Fail(RowError::InvalidAmount { row: index as usize, column: 3 }),
            Some(amount) => match timestamp_of(row[0]) {
                None => RowOutcome::Fail(RowError::InvalidDate { row: index as usize, column: 0 }),
                Some(timestamp) => RowOutcome::Keep(
                    ExpenseView {
                        amount,
                        description: trimmed_of(row[4]),
                        timestamp,
                        receipt_link: optional_cell(row, 5),
                        merchant: optional_cell(row, 6),
                        buyers_name: optional_cell(row, 7),
                    },
                ),
            },
        }
    }
}

/// The expenses of rows 1 to `n - 1` for `property`, or the first row error.
pub open spec fn expenses_upto(rows: Seq<Seq<Seq<char>>>, property: Seq<char>, n: int) -> Result<
    Seq<ExpenseView>,
    RowError,
>
    decreases n,
{
    if n <= 1 {
        Ok(Seq::empty())
    } else {
        match expenses_upto(rows, property, n - 1) {
            Err(e) => Err(e),
            Ok(s) => match expense_outcome(rows[n - 1], property, n - 1) {
                RowOutcome::Skip => Ok(s),
                RowOutcome::Keep(e) => Ok(s.push(e)),
                RowOutcome::Fail(e) => Err(e),
            },
        }
    }
}

/// The expenses of a sheet for `property`, headings excluded.
pub open spec fn expenses_of(rows: Seq<Seq<Seq<char>>>, property: Seq<char>) -> Result<
    Seq<ExpenseView>,
    RowError,
> {
    expenses_upto(rows, property, rows.len() as int)
}

/// The value of a list of expenses, or of the error in its place.
pub open spec fn expenses_result(r: Result<Vec<Expense>, RowError>) -> Result<
    Seq<ExpenseView>,
    RowError,
> {
    match r {
        Ok(v) => Ok(expense_views(v@)),
        Err(e) => Err(e),
    }
}

/// An amount cell: a number once currency marks are removed.
pub open spec fn amount_cell(cell: Seq<char>) -> Option<Amount> {
    amount_of(strip_currency(cell))
}

/// Whether a reservation row is left out: no cells, or an empty or deleted platform.
pub open spec fn reservation_skipped(row: Seq<Seq<char>>) -> bool {
    row.len() == 0 || row[0].len() == 0 || row[0] == DELETED_REFERENCE@
}

/// What becomes of reservation row `index`.
pub open spec fn reservation_outcome(row: Seq<Seq<char>>, index: int) -> RowOutcome<
    ReservationView,
> {
    let i = index as usize;
    if reservation_skipped(row) {
        RowOutcome::Skip
    } else if row.len() != RESERVATION_COLUMNS {
        RowOutcome::Fail(RowError::ColumnCount { row: i })
    } else if sheet_date_of(row[1]) is None {
        RowOutcome::Fail(RowError::InvalidDate { row: i, column: 1 })
    } else if sheet_date_of(row[2]) is None {
        RowOutcome::Fail(RowError::InvalidDate { row: i, column: 2 })
    } else if sheet_date_of(row[3]) is None {
        RowOutcome::Fail(RowError::InvalidDate { row: i, column: 3 })
    } else if amount_cell(row[4]) is None {
        RowOutcome::Fail(RowError::InvalidAmount { row: i, column: 4 })
    } else if row[5].len() != 0 && amount_cell(row[5]) is None {
        RowOutcome::Fail(RowError::InvalidAmount { row: i, column: 5 })
    } else if amount_cell(row[6]) is None {
        RowOutcome::Fail(RowError::InvalidAmount { row: i, column: 6 })
    } else {
        RowOutcome::Keep(
            ReservationView {
                platform: lower_of(trimmed_of(row[0])),
                payout_date: sheet_date_of(row[1])->0,
                check_in: sheet_date_of(row[2])->0,
                check_out: sheet_date_of(row[3])->0,
                revenue: amount_cell(row[4])->0,
                management_fee: if row[5].len() == 0 {
                    Amount { mantissa: 0, scale: 0 }
                } else {
                    amount_cell(row[5])->0
                },
                net_profit: amount_cell(row[6])->0,
            },
        )
    }
}

/// The reservations of rows 1 to `n - 1`, or the first row error.
pub open spec fn reservations_upto(rows: Seq<Seq<Seq<char>>>, n: int) -> Result<
    Seq<ReservationView>,
    RowError,
>
    decreases n,
{
    if n <= 1 {
        Ok(Seq::empty())
    } else {
        match reservations_upto(rows, n - 1) {
            Err(e) => Err(e),
            Ok(s) => match reservation_outcome(rows[n - 1], n - 1) {
                RowOutcome::Skip => Ok(s),
                RowOutcome::Keep(r) => Ok(s.push(r)),
                RowOutcome::Fail(e) => Err(e),
            },
        }
    }
}

/// The reservations of a sheet, headings excluded.
pub open spec fn reservations_of(rows: Seq<Seq<Seq<char>>>) -> Result<
    Seq<ReservationView>,
    RowError,
> {
    reservations_upto(rows, rows.len() as int)
}

/// The value of a list of reservations, or of the error in its place.
pub open spec fn reservations_result(r: Result<Vec<Reservation>, RowError>) -> Result<
    Seq<ReservationView>,
    RowError,
> {
    match r {
        Ok(v) => Ok(reservation_views(v@)),
        Err(e) => Err(e),
    }
}

/// The expenses of `s` whose timestamp falls in month `month`, in order.
pub open spec fn in_month(s: Seq<ExpenseView>, month: int) -> Seq<ExpenseView>
    decreases s.len(),
{
    if s.len() == 0 {
        s
    } else if s.last().timestamp.month == month {
        in_month(s.drop_last(), month).push(s.last())
    } else {
        in_month(s.drop_last(), month)
    }
}

/// The range of the reservation sheet of month `month`: the month's name and columns A to G.
pub open spec fn reservation_range_of(month: u8) -> Option<Seq<char>> {
    match month_numbered(month as int) {
        Some(m) => Some(month_name(m) + "!A:G"@),
        None => None,
    }
}

proof fn lemma_expense_error_persists(
    rows: Seq<Seq<Seq<char>>>,
    property: Seq<char>,
    k: int,
    m: int,
)
    requires
        1 <= k <= m,
        expenses_upto(rows, property, k) is Err,
    ensures
        expenses_upto(rows, property, m) == expenses_upto(rows, property, k),
    decreases m - k,
{
    if m > k {
        lemma_expense_error_persists(rows, property, k, m - 1);
    }
}

proof fn lemma_reservation_error_persists(rows: Seq<Seq<Seq<char>>>, k: int, m: int)
    requires
        1 <= k <= m,
        reservations_upto(rows, k) is Err,
    ensures
        reservations_upto(rows, m) == reservations_upto(rows, k),
    decreases m - k,
{
    if m > k {
        lemma_reservation_error_persists(rows, k, m - 1);
    }
}

/// An expense is kept only from a row whose property equals the one asked
/// for, ignoring case; rows of other properties, and rows with no cells,
/// yield nothing.
pub proof fn lemma_expense_row_filter(row: Seq<Seq<char>>, property: Seq<char>, index: int)
    ensures
        expense_outcome(row, property, index) is Keep ==> lower_of(row[2]) == lower_of(property),
        row.len() == 0 ==> expense_outcome(row, property, index) is Skip,
        EXPENSE_REQUIRED_COLUMNS <= row.len() <= EXPENSE_COLUMNS && lower_of(row[2]) != lower_of(
            property,
        ) ==> expense_outcome(row, property, index) is Skip,
{
}

proof fn lemma_expenses_ignore_heading(
    rows: Seq<Seq<Seq<char>>>,
    other: Seq<Seq<Seq<char>>>,
    property: Seq<char>,
    n: int,
)
    requires
        n <= rows.len() == other.len(),
        forall|i: int| 1 <= i < rows.len() ==> rows[i] == other[i],
    ensures
        expenses_upto(rows, property, n) == expenses_upto(other, property, n),
    decreases n,
{
    if n > 1 {
        lemma_expenses_ignore_heading(rows, other, property, n - 1);
    }
}

/// The heading row is never read: two sheets that differ only in row 0
/// give the same expenses, or the same error.
pub proof fn lemma_expense_heading_never_read(
    rows: Seq<Seq<Seq<char>>>,
    other: Seq<Seq<Seq<char>>>,
    property: Seq<char>,
)
    requires
        rows.len() == other.len(),
        forall|i: int| 1 <= i < rows.len() ==> rows[i] == other[i],
    ensures
        expenses_of(rows, property) == expenses_of(other, property),
{
    lemma_expenses_ignore_heading(rows, other, property, rows.len() as int);
}

/// A reservation row whose platform cell is empty or `#REF!` yields no
/// record, and a record read from a row whose management fee cell is empty
/// has a fee of zero.
pub proof fn lemma_reservation_row_rules(row: Seq<Seq<char>>, index: int)
    ensures
        row.len() > 0 && (row[0].len() == 0 || row[0] == DELETED_REFERENCE@) ==> reservation_outcome(
            row,
            index,
        ) is Skip,
        reservation_outcome(row, index) matches RowOutcome::Keep(r) ==> (row[5].len() == 0
            ==> r.management_fee == Amount { mantissa: 0, scale: 0 }),
{
}

proof fn lemma_reservations_ignore_heading(
    rows: Seq<Seq<Seq<char>>>,
    other: Seq<Seq<Seq<char>>>,
    n: int,
)
    requires
        n <= rows.len() == other.len(),
        forall|i: int| 1 <= i < rows.len() ==> rows[i] == other[i],
    ensures
        reservations_upto(rows, n) == reservations_upto(other, n),
    decreases n,
{
    if n > 1 {
        lemma_reservations_ignore_heading(rows, other, n - 1);
    }
}

/// The heading row is never read: two reservation sheets that differ only
/// in row 0 give the same reservations, or the same error.
pub proof fn lemma_reservation_heading_never_read(
    rows: Seq<Seq<Seq<char>>>,
    other: Seq<Seq<Seq<char>>>,
)
    requires
        rows.len() == other.len(),
        forall|i: int| 1 <= i < rows.len() ==> rows[i] == other[i],
    ensures
        reservations_of(rows) == reservations_of(other),
{
    lemma_reservations_ignore_heading(rows, other, rows.len() as int);
}

fn trimmed_string(s: &String) -> (r: String)
    ensures
        r@ == trimmed_of(s@),
{
    String::from_str(trim(s.as_str()))
}

fn optional_trimmed(row: &Vec<String>, k: usize) -> (r: String)
    ensures
        r@ == optional_cell(row.deep_view(), k as int),
{
    if k < row.len() {
        trimmed_string(&row[k])
    } else {
        String::new()
    }
}

/// Decodes expense row `index`, given the lowercase form of its property
/// cell and of the property asked for. A row with no cells is passed over;
/// one without five to eight cells is an error; one whose property differs
/// is passed over; otherwise its amount and timestamp must read.
pub fn expense_from_folded_row(
    row: &Vec<String>,
    row_property: &str,
    property: &str,
    index: usize,
) -> (r: RowOutcome<Expense>)
    ensures
        match (r, expense_outcome_folded(row.deep_view(), row_property@, property@, index as int)) {
            (RowOutcome::Skip, RowOutcome::Skip) => true,
            (RowOutcome::Keep(e), RowOutcome::Keep(v)) => e@ == v,
            (RowOutcome::Fail(e), RowOutcome::Fail(f)) => e == f,
            _ => false,
        },
{
    let ghost cells = row.deep_view();
    let n = row.len();
    if n == 0 {
        return RowOutcome::Skip;
    }
    if n < EXPENSE_REQUIRED_COLUMNS || n > EXPENSE_COLUMNS {
        return RowOutcome::Fail(RowError::ColumnCount { row: index });
    }
    let row_name = String::from_str(row_property);
    let wanted = String::from_str(property);
    if !(row_name == wanted) {
        return RowOutcome::Skip;
    }
    let price = normalize_price(row[3].as_str());
    let amount = match parse_amount(price.as_str()) {
        Some(a) => a,
        None => {
            return RowOutcome::Fail(RowError::InvalidAmount { row: index, column: 3 });
        },
    };
    let timestamp = match try_parse_timestamp(row[0].as_str()) {
        Some(t) => t,
        None => {
            return RowOutcome::Fail(RowError::InvalidDate { row: index, column: 0 });
        },
    };
    RowOutcome::Keep(
        Expense {
            amount,
            description: trimmed_string(&row[4]),
            timestamp,
            receipt_link: optional_trimmed(row, 5),
            merchant: optional_trimmed(row, 6),
            buyers_name: optional_trimmed(row, 7),
        },
    )
}

/// Reads the expenses of `property` from the rows of an expense sheet.
///
/// Row 0, the headings, is passed over, and so are rows with no cells. Every
/// other row must have five to eight cells. Rows whose property differs from
/// `property`, ignoring case, are left out. The rest become expenses, in
/// order; the first amount or timestamp that cannot be read is an error.
pub fn expenses_from_rows(rows: &Vec<Vec<String>>, property: &str) -> (r: Result<
    Vec<Expense>,
    RowError,
>)
    ensures
        expenses_result(r) == expenses_of(rows.deep_view(), property@),
{
    let property_lower = to_lowercase(property);
    let mut out: Vec<Expense> = Vec::new();
    let mut i: usize = 1;
    assert(expense_views(out@) =~= Seq::empty());
    if rows.len() == 0 {
        return Ok(out);
    }
    while i < rows.len()
        invariant
            1 <= i <= rows@.len(),
            property_lower@ == lower_of(property@),
            expenses_upto(rows.deep_view(), property@, i as int) == Ok::<
                Seq<ExpenseView>,
                RowError,
            >(expense_views(out@)),
        decreases rows@.len() - i,
    {
        assert(rows.deep_view()[i as int] == rows@[i as int].deep_view());
        let row_property = if rows[i].len() > 2 {
            assert(rows.deep_view()[i as int][2] == rows@[i as int]@[2]@);
            to_lowercase(rows[i][2].as_str())
        } else {
            String::new()
        };
        let outcome = expense_from_folded_row(
            &rows[i],
            row_property.as_str(),
            property_lower.as_str(),
            i,
        );
        match outcome {
            RowOutcome::Skip => {},
            RowOutcome::Keep(e) => {
                let ghost before = out@;
                out.push(e);
                assert(expense_views(out@) =~= expense_views(before).push(e@));
            },
            RowOutcome::Fail(e) => {
                proof {
                    lemma_expense_error_persists(rows.deep_view(), property@, i + 1, rows@.len() as int);
                }
                return Err(e);
            },
        }
        i += 1;
    }
    Ok(out)
}

/// Reads an amount cell, or gives the error for `column` of row `index`.
fn amount_from_cell(cell: &String, index: usize, column: usize) -> (r: Result<Amount, RowError>)
    ensures
        match amount_cell(cell@) {
            Some(a) => r == Ok::<Amount, RowError>(a),
            None => r == Err::<Amount, RowError>(RowError::InvalidAmount { row: index, column }),
        },
{
    let price = normalize_price(cell.as_str());
    match parse_amount(price.as_str()) {
        Some(a) => Ok(a),
        None => Err(RowError::InvalidAmount { row: index, column }),
    }
}

/// Reads a date cell, or gives the error for `column` of row `index`.
fn date_from_cell(cell: &String, index: usize, column: usize) -> (r: Result<
    crate::datetime::DateTime,
    RowError,
>)
    ensures
        match sheet_date_of(cell@) {
            Some(d) => r == Ok::<crate::datetime::DateTime, RowError>(d),
            None => r == Err::<crate::datetime::DateTime, RowError>(
                RowError::InvalidDate { row: index, column },
            ),
        },
{
    match parse_sheet_date(cell.as_str()) {
        Some(d) => Ok(d),
        None => Err(RowError::InvalidDate { row: index, column }),
    }
}

/// Decodes reservation row `index`.
fn reservation_from_row(row: &Vec<String>, index: usize) -> (r: RowOutcome<Reservation>)
    ensures
        match (r, reservation_outcome(row.deep_view(), index as int)) {
            (RowOutcome::Skip, RowOutcome::Skip) => true,
            (RowOutcome::Keep(e), RowOutcome::Keep(v)) => e@ == v,
            (RowOutcome::Fail(e), RowOutcome::Fail(f)) => e == f,
            _ => false,
        },
{
    let ghost cells = row.deep_view();
    let n = row.len();
    if n == 0 {
        return RowOutcome::Skip;
    }
    assert(cells[0] == row@[0]@);
    let deleted = String::from_str(DELETED_REFERENCE);
    if row[0].as_str().unicode_len() == 0 || row[0] == deleted {
        return RowOutcome::Skip;
    }
    if n != RESERVATION_COLUMNS {
        return RowOutcome::Fail(RowError::ColumnCount { row: index });
    }
    assert(cells[1] == row@[1]@ && cells[2] == row@[2]@ && cells[3] == row@[3]@);
    assert(cells[4] == row@[4]@ && cells[5] == row@[5]@ && cells[6] == row@[6]@);
    let payout_date = match date_from_cell(&row[1], index, 1) {
        Ok(d) => d,
        Err(e) => {
            return RowOutcome::Fail(e);
        },
    };
    let check_in = match date_from_cell(&row[2], index, 2) {
        Ok(d) => d,
        Err(e) => {
            return RowOutcome::Fail(e);
        },
    };
    let check_out = match date_from_cell(&row[3], index, 3) {
        Ok(d) => d,
        Err(e) => {
            return RowOutcome::Fail(e);
        },
    };
    let revenue = match amount_from_cell(&row[4], index, 4) {
        Ok(a) => a,
        Err(e) => {
            return RowOutcome::Fail(e);
        },
    };
    let management_fee = if row[5].as_str().unicode_len() == 0 {
        Amount::zero()
    } else {
        match amount_from_cell(&row[5], index, 5) {
            Ok(a) => a,
            Err(e) => {
                return RowOutcome::Fail(e);
            },
        }
    };
    let net_profit = match amount_from_cell(&row[6], index, 6) {
        Ok(a) => a,
        Err(e) => {
            return RowOutcome::Fail(e);
        },
    };
    let platform = to_lowercase(trim(row[0].as_str()));
    RowOutcome::Keep(
        Reservation {
            platform,
            payout_date,
            check_in,
            check_out,
            revenue,
            management_fee,
            net_profit,
        },
    )
}

/// Reads the reservations from the rows of a month's reservation sheet.
///
/// Row 0, the headings, is passed over, and so are rows with no cells or
/// whose platform cell is empty or `#REF!`. Every other row must have seven
/// cells. Dates are month/day/year; an empty management fee reads as zero.
/// The first date or amount that cannot be read is an error.
pub fn reservations_from_rows(rows: &Vec<Vec<String>>) -> (r: Result<
    Vec<Reservation>,
    RowError,
>)
    ensures
        reservations_result(r) == reservations_of(rows.deep_view()),
{
    let mut out: Vec<Reservation> = Vec::new();
    let mut i: usize = 1;
    assert(reservation_views(out@) =~= Seq::empty());
    if rows.len() == 0 {
        return Ok(out);
    }
    while i < rows.len()
        invariant
            1 <= i <= rows@.len(),
            reservations_upto(rows.deep_view(), i as int) == Ok::<
                Seq<ReservationView>,
                RowError,
            >(reservation_views(out@)),
        decreases rows@.len() - i,
    {
        let outcome = reservation_from_row(&rows[i], i);
        assert(rows.deep_view()[i as int] == rows@[i as int].deep_view());
        match outcome {
            RowOutcome::Skip => {},
            RowOutcome::Keep(e) => {
                let ghost before = out@;
                out.push(e);
                assert(reservation_views(out@) =~= reservation_views(before).push(e@));
            },
            RowOutcome::Fail(e) => {
                proof {
                    lemma_reservation_error_persists(rows.deep_view(), i + 1, rows@.len() as int);
                }
                return Err(e);
            },
        }
        i += 1;
    }
    Ok(out)
}

/// Keeps the expenses whose timestamp falls in month `month`, in order.
pub fn expenses_in_month(expenses: Vec<Expense>, month: u8) -> (r: Vec<Expense>)
    ensures
        expense_views(r@) == in_month(expense_views(expenses@), month as int),
{
    let ghost all = expenses@;
    let count = expenses.len();
    let mut rest = expenses;
    let mut out: Vec<Expense> = Vec::new();
    let mut i: usize = 0;
    assert(expense_views(all.take(0)) =~= Seq::empty());
    assert(expense_views(out@) =~= Seq::empty());
    while rest.len() > 0
        invariant
            all.len() <= usize::MAX,
            i + rest@.len() == all.len(),
            rest@ == all.skip(i as int),
            expense_views(out@) == in_month(expense_views(all.take(i as int)), month as int),
        decreases rest@.len(),
    {
        let e = rest.remove(0);
        assert(e == all[i as int]);
        assert(rest@ =~= all.skip(i + 1));
        let ghost taken = expense_views(all.take(i + 1));
        assert(taken.drop_last() =~= expense_views(all.take(i as int)));
        assert(taken.last() == e@);
        if e.timestamp.month == month as u32 {
            let ghost before = out@;
            out.push(e);
            assert(expense_views(out@) =~= expense_views(before).push(e@));
        }
        i += 1;
    }
    assert(all.take(i as int) =~= all);
    out
}

/// The range of the reservation sheet for month `month` (1 to 12), such as
/// `January!A:G`; any other number is `InvalidMonth`.
pub fn reservation_range(month: u8) -> (r: Result<String, ReservationError>)
    ensures
        match reservation_range_of(month) {
            Some(range) => r matches Ok(s) && s@ == range,
            None => r == Err::<String, ReservationError>(ReservationError::InvalidMonth),
        },
{
    match Month::from_number(month) {
        Ok(m) => {
            let mut range = m.to_string();
            range.append("!A:G");
            Ok(range)
        },
        Err(_) => Err(ReservationError::InvalidMonth),
    }
}

} // verus!
