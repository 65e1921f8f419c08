//! The staff search forms. Each search is a set of optional predicates joined
//! by AND; a search with no predicate set returns nothing and reads nothing.

use vstd::prelude::*;

verus! {

/// An ASCII decimal digit.
pub open spec fn is_digit(c: char) -> bool {
    '0' <= c && c <= '9'
}

/// The number written by a run of decimal digits.
pub open spec fn digits_value(s: Seq<char>) -> int
    decreases s.len(),
{
    if s.len() == 0 {
        0
    } else {
        digits_value(s.drop_last()) * 10 + (s.last() as int - '0' as int)
    }
}

/// A non-empty run of decimal digits.
pub open spec fn all_digits(s: Seq<char>) -> bool {
    s.len() > 0 && forall|i: int| 0 <= i < s.len() ==> is_digit(#[trigger] s[i])
}

/// The integer written as an optional `+` or `-` followed by decimal digits,
/// with nothing else around them.
pub open spec fn decimal_int(s: Seq<char>) -> Option<int> {
    if s.len() > 0 && (s[0] == '+' || s[0] == '-') {
        let d = s.subrange(1, s.len() as int);
        if all_digits(d) {
            Some(
                if s[0] == '-' {
                    -digits_value(d)
                } else {
                    digits_value(d)
                },
            )
        } else {
            None
        }
    } else if all_digits(s) {
        Some(digits_value(s))
    } else {
        None
    }
}

/// What parsing `s` as a 64-bit integer gives.
pub open spec fn parsed_i64(s: Seq<char>) -> Option<i64> {
    match decimal_int(s) {
        Some(v) => if i64::MIN <= v <= i64::MAX {
            Some(v as i64)
        } else {
            None
        },
        None => None,
    }
}

/// What parsing `s` as a 32-bit integer gives.
pub open spec fn parsed_i32(s: Seq<char>) -> Option<i32> {
    match decimal_int(s) {
        Some(v) => if i32::MIN <= v <= i32::MAX {
            Some(v as i32)
        } else {
            None
        },
        None => None,
    }
}

/// Relies on std's `<i64 as FromStr>::from_str`: an optional sign and decimal
/// digits only, refused when out of range.
#[verifier::external_body]
fn parse_i64(s: &str) -> (r: Option<i64>)
    ensures
        r == parsed_i64(s@),
{
    s.parse::<i64>().ok()
}

/// Relies on std's `<i32 as FromStr>::from_str`: an optional sign and decimal
/// digits only, refused when out of range.
#[verifier::external_body]
fn parse_i32(s: &str) -> (r: Option<i32>)
    ensures
        r == parsed_i32(s@),
{
    s.parse::<i32>().ok()
}

/// A copy of an optional text.
pub fn copy_text(t: &Option<String>) -> (r: Option<String>)
    ensures
        r == *t,
{
    match t {
        Some(s) => Some(s.clone()),
        None => None,
    }
}

/// An optional number field: absent, or present but unparsable, gives `None`.
pub open spec fn number_field_i64(t: Option<String>) -> Option<i64> {
    match t {
        Some(s) => parsed_i64(s@),
        None => None,
    }
}

/// An optional number field: absent, or present but unparsable, gives `None`.
pub open spec fn number_field_i32(t: Option<String>) -> Option<i32> {
    match t {
        Some(s) => parsed_i32(s@),
        None => None,
    }
}

fn read_i64(t: &Option<String>) -> (r: Option<i64>)
    ensures
        r == number_field_i64(*t),
{
    match t {
        Some(s) => parse_i64(s.as_str()),
        None => None,
    }
}

fn read_i32(t: &Option<String>) -> (r: Option<i32>)
    ensures
        r == number_field_i32(*t),
{
    match t {
        Some(s) => parse_i32(s.as_str()),
        None => None,
    }
}

/// The month predicate only applies together with a year.
pub open spec fn month_with_year(year: Option<i32>, month: Option<i32>) -> Option<i32> {
    if year is Some {
        month
    } else {
        None
    }
}

// ---------------------------------------------------------------- clients

/// The client search form.
#[derive(Clone, Debug)]
pub struct FindClientQuery {
    pub client_id: Option<String>,
    pub first_name: Option<String>,
    pub last_name: Option<String>,
    pub email: Option<String>,
    pub phone: Option<String>,
}

/// The client predicates to run: case-insensitive matches on id, names and
/// e-mail, and a suffix match on the phone number.
#[derive(Clone, Debug)]
pub struct ClientFilter {
    pub client_id: Option<String>,
    pub first_name: Option<String>,
    pub last_name: Option<String>,
    pub email: Option<String>,
    pub phone: Option<String>,
}

/// Every field of the client form is absent.
pub open spec fn client_query_empty(q: FindClientQuery) -> bool {
    q.client_id is None && q.first_name is None && q.last_name is None && q.email is None
        && q.phone is None
}

/// Plans a client search: `None` (an empty answer, no query) when every field
/// is absent, else the predicates of the fields given.
pub fn find_client(q: FindClientQuery) -> (r: Option<ClientFilter>)
    ensures
        client_query_empty(q) <==> r is None,
        r matches Some(f) ==> f.client_id == q.client_id && f.first_name == q.first_name
            && f.last_name == q.last_name && f.email == q.email && f.phone == q.phone,
{
    if q.client_id.is_none() && q.first_name.is_none() && q.last_name.is_none()
        && q.email.is_none() && q.phone.is_none() {
        return None;
    }
    Some(
        ClientFilter {
            client_id: q.client_id,
            first_name: q.first_name,
            last_name: q.last_name,
            email: q.email,
            phone: q.phone,
        },
    )
}

// ---------------------------------------------------------------- bookings

/// The booking search form; numbers arrive as text.
#[derive(Clone, Debug)]
pub struct FindBookingQuery {
    pub first_name: Option<String>,
    pub last_name: Option<String>,
    pub email: Option<String>,
    pub phone: Option<String>,
    pub booking_number: Option<String>,
    pub booking_id: Option<String>,
    pub year: Option<String>,
    pub month: Option<String>,
}

/// The booking predicates to run. Names and e-mail match case-insensitively
/// and partially, the phone by suffix, the year and month on the creation
/// time.
#[derive(Clone, Debug)]
pub struct BookingFilter {
    pub first_name: Option<String>,
    pub last_name: Option<String>,
    pub email: Option<String>,
    pub phone: Option<String>,
    pub booking_number: Option<i64>,
    pub booking_id: Option<String>,
    pub year: Option<i32>,
    pub month: Option<i32>,
}

/// No predicate of the booking form is set; a number that does not parse
/// counts as absent.
pub open spec fn booking_query_empty(q: FindBookingQuery) -> bool {
    q.first_name is None && q.last_name is None && q.email is None && q.phone is None
        && number_field_i64(q.booking_number) is None && q.booking_id is None
        && number_field_i32(q.year) is None && number_field_i32(q.month) is None
}

/// Plans a booking search: `None` (an empty answer, no query) when no
/// predicate is set, else the predicates given, with the numbers parsed and
/// the month kept only together with a year.
pub fn find_bookings(q: FindBookingQuery) -> (r: Option<BookingFilter>)
    ensures
        booking_query_empty(q) <==> r is None,
        r matches Some(f) ==> f.first_name == q.first_name && f.last_name == q.last_name
            && f.email == q.email && f.phone == q.phone && f.booking_id == q.booking_id
            && f.booking_number == number_field_i64(q.booking_number) && f.year
            == number_field_i32(q.year) && f.month == month_with_year(
            number_field_i32(q.year),
            number_field_i32(q.month),
        ),
{
    let booking_number = read_i64(&q.booking_number);
    let year = read_i32(&q.year);
    let month = read_i32(&q.month);
    if q.first_name.is_none() && q.last_name.is_none() && q.email.is_none() && q.phone.is_none()
        && booking_number.is_none() && q.booking_id.is_none() && year.is_none()
        && month.is_none() {
        return None;
    }
    let month = if year.is_some() {
        month
    } else {
        None
    };
    Some(
        BookingFilter {
            first_name: q.first_name,
            last_name: q.last_name,
            email: q.email,
            phone: q.phone,
            booking_number,
            booking_id: q.booking_id,
            year,
            month,
        },
    )
}

// ---------------------------------------------------------------- invoices

/// The invoice search form; numbers arrive as text.
#[derive(Clone, Debug)]
pub struct FindInvoiceQuery {
    pub client_first_name: Option<String>,
    pub client_last_name: Option<String>,
    pub email: Option<String>,
    pub phone: Option<String>,
    pub year: Option<String>,
    pub month: Option<String>,
    pub invoice_number: Option<String>,
    pub invoice_id: Option<String>,
    pub client_id: Option<String>,
}

/// How to find the client an invoice search is about, when the form names
/// the client instead of giving its id: the first client matching all given
/// fields.
#[derive(Clone, Debug)]
pub struct ClientLookup {
    pub first_name: Option<String>,
    pub last_name: Option<String>,
    pub email: Option<String>,
    pub phone: Option<String>,
}

/// The invoice predicates to run, joined by AND.
#[derive(Clone, Debug)]
pub struct InvoiceFilter {
    pub client_id: Option<String>,
    pub invoice_number: Option<i64>,
    pub invoice_id: Option<String>,
    pub year: Option<i32>,
    pub month: Option<i32>,
}

/// The form names the client by some identity field and gives no id.
pub open spec fn needs_client_lookup(q: FindInvoiceQuery) -> bool {
    q.client_id is None && (q.client_first_name is Some || q.client_last_name is Some
        || q.email is Some || q.phone is Some)
}

/// First step of an invoice search: the client lookup to make, if the form
/// names a client without giving its id.
pub fn invoice_client_lookup(q: &FindInvoiceQuery) -> (r: Option<ClientLookup>)
    ensures
        needs_client_lookup(*q) <==> r is Some,
        r matches Some(l) ==> l.first_name == q.client_first_name && l.last_name
            == q.client_last_name && l.email == q.email && l.phone == q.phone,
{
    if q.client_id.is_none() && (q.client_first_name.is_some() || q.client_last_name.is_some()
        || q.email.is_some() || q.phone.is_some()) {
        Some(
            ClientLookup {
                first_name: copy_text(&q.client_first_name),
                last_name: copy_text(&q.client_last_name),
                email: copy_text(&q.email),
                phone: copy_text(&q.phone),
            },
        )
    } else {
        None
    }
}

/// The client id the invoice predicates use: the one found by the lookup
/// when a lookup was needed, else the one the form gives.
pub open spec fn invoice_client(q: FindInvoiceQuery, found: Option<String>) -> Option<String> {
    if needs_client_lookup(q) {
        found
    } else {
        q.client_id
    }
}

/// No invoice predicate is set once the client is resolved; a number that
/// does not parse counts as absent.
pub open spec fn invoice_search_empty(q: FindInvoiceQuery, found: Option<String>) -> bool {
    invoice_client(q, found) is None && number_field_i64(q.invoice_number) is None
        && q.invoice_id is None && number_field_i32(q.year) is None && number_field_i32(
        q.month,
    ) is None
}

/// Second step of an invoice search, given what the client lookup found
/// (ignored when no lookup was needed): `None` (an empty answer, no query)
/// when no predicate is set, else the predicates, with the numbers parsed
/// and the month kept only together with a year.
pub fn find_invoice(q: FindInvoiceQuery, found: Option<String>) -> (r: Option<InvoiceFilter>)
    ensures
        invoice_search_empty(q, found) <==> r is None,
        r matches Some(f) ==> f.client_id == invoice_client(q, found) && f.invoice_number
            == number_field_i64(q.invoice_number) && f.invoice_id == q.invoice_id && f.year
            == number_field_i32(q.year) && f.month == month_with_year(
            number_field_i32(q.year),
            number_field_i32(q.month),
        ),
{
    let invoice_number = read_i64(&q.invoice_number);
    let year = read_i32(&q.year);
    let month = read_i32(&q.month);
    let lookup = q.client_id.is_none() && (q.client_first_name.is_some()
        || q.client_last_name.is_some() || q.email.is_some() || q.phone.is_some());
    let client_id = if lookup {
        found
    } else {
        q.client_id
    };
    if client_id.is_none() && invoice_number.is_none() && q.invoice_id.is_none() && year.is_none()
        && month.is_none() {
        return None;
    }
    let month = if year.is_some() {
        month
    } else {
        None
    };
    Some(InvoiceFilter { client_id, invoice_number, invoice_id: q.invoice_id, year, month })
}

/// One invoice in a search answer.
#[derive(Clone, Debug)]
pub struct FoundInvoice {
    pub invoice_number: i64,
    pub invoice_id: String,
}

} // verus!
