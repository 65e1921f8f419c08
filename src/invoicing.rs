//! Invoices: creation, whole-document edits and the assembled view.

use crate::api::ApiStatus;
use crate::clientele::{update_client_address, AddressUpdate, Client, StateCountry, stored_state};
use crate::clock::Timestamp;
use crate::money::{
    max_scale, subtotal, subtotal_value, totals_in_range, Amount, NewInvoiceItem, items_wf,
};
use vstd::prelude::*;

verus! {

/// An invoice id sent by a staff page.
#[derive(Clone, Debug)]
pub struct InvoiceID {
    pub invoice_id: String,
}

/// The form that creates an invoice. Exactly one of `client_id` and
/// `booking_id` names the client.
#[derive(Clone, Debug)]
pub struct NewInvoiceInfo {
    pub client_id: Option<String>,
    pub booking_id: Option<String>,
    pub invoice_items: Vec<NewInvoiceItem>,
    pub amount_tax: Option<Amount>,
    pub notes: Option<String>,
    pub due_date: Timestamp,
    pub address_street: Option<String>,
    pub address_city: Option<String>,
    pub address_state: Option<StateCountry>,
    pub address_zip: Option<String>,
    pub address_country: StateCountry,
}

/// The form that replaces an invoice as a whole.
#[derive(Clone, Debug)]
pub struct EditInvoiceInfo {
    pub client_id: String,
    pub invoice_items: Vec<NewInvoiceItem>,
    pub amount_tax: Option<Amount>,
    pub notes: Option<String>,
    pub due_date: Timestamp,
    pub address_street: Option<String>,
    pub address_city: Option<String>,
    pub address_state: Option<StateCountry>,
    pub address_zip: Option<String>,
    pub address_country: StateCountry,
    pub payment_completed: bool,
    pub paid_at: Option<Timestamp>,
}

/// A stored invoice header.
#[derive(Clone, Debug)]
pub struct Invoice {
    pub invoice_id: String,
    pub invoice_number: i64,
    pub client_id: Option<String>,
    pub booking_id: Option<String>,
    pub amount_subtotal: Amount,
    pub amount_tax: Amount,
    pub amount_total: Option<Amount>,
    pub payment_method: Option<String>,
    pub notes: Option<String>,
    pub due_date: Option<Timestamp>,
    pub payment_completed: bool,
    /// Present only once the invoice is paid.
    pub paid_at: Option<Timestamp>,
    pub created_at: Timestamp,
}

/// A stored invoice line.
#[derive(Clone, Debug)]
pub struct InvoiceItem {
    pub invoice_id: String,
    pub invoice_item_id: String,
    pub description: String,
    pub quantity: i32,
    pub unit_price: Amount,
}

/// An invoice with its lines and its client, as a staff page shows it.
#[derive(Clone, Debug)]
pub struct ReturnFullInvoice {
    pub invoice: Invoice,
    pub invoice_items: Vec<InvoiceItem>,
    pub client: Client,
}

/// Why an invoice form was refused.
#[derive(Clone, Copy, Debug, PartialEq, Eq, Structural)]
pub enum InvoiceError {
    /// Neither a client id nor a booking id was given.
    NoClientReference,
    /// The client id given does not exist.
    ClientNotFound,
    /// The booking id given does not exist.
    BookingNotFound,
    /// A line total or the subtotal left the decimal range.
    AmountOutOfRange,
}

impl InvoiceError {
    /// The status this refusal is reported with.
    pub fn status(&self) -> (r: ApiStatus)
        ensures
            r == ApiStatus::BadRequest,
    {
        ApiStatus::BadRequest
    }

    /// The message shown to staff.
    pub fn message(&self) -> (r: &'static str)
        ensures
            r@ == match *self {
                InvoiceError::NoClientReference => "must provide either client_id or booking_id!"@,
                InvoiceError::ClientNotFound => "ERROR: Client_ID could not be found"@,
                InvoiceError::BookingNotFound => "ERROR: Booking_ID could not be found"@,
                InvoiceError::AmountOutOfRange => "ERROR: invoice amounts are out of range"@,
            },
    {
        match self {
            InvoiceError::NoClientReference => "must provide either client_id or booking_id!",
            InvoiceError::ClientNotFound => "ERROR: Client_ID could not be found",
            InvoiceError::BookingNotFound => "ERROR: Booking_ID could not be found",
            InvoiceError::AmountOutOfRange => "ERROR: invoice amounts are out of range",
        }
    }
}

/// Where the client of a new invoice comes from.
#[derive(Clone, Debug)]
pub enum ClientSource {
    /// An existing client, by id.
    Client(String),
    /// The client derived from (or already matching) a booking, by booking id.
    Booking(String),
}

/// Reads which client a new invoice is for: the client id when given, else
/// the booking id; neither is refused.
pub fn invoice_client_source(client_id: Option<String>, booking_id: Option<String>) -> (r: Result<
    ClientSource,
    InvoiceError,
>)
    ensures
        client_id matches Some(c) ==> (r matches Ok(ClientSource::Client(x)) && x == c),
        (client_id is None && booking_id is Some) ==> (r matches Ok(ClientSource::Booking(x))
            && Some(x) == booking_id),
        client_id is None && booking_id is None ==> r == Err::<ClientSource, InvoiceError>(
            InvoiceError::NoClientReference,
        ),
{
    match (client_id, booking_id) {
        (Some(c), _) => Ok(ClientSource::Client(c)),
        (None, Some(b)) => Ok(ClientSource::Booking(b)),
        (None, None) => Err(InvoiceError::NoClientReference),
    }
}

/// Checks the lookup of the source's record: a missing client or booking is
/// refused.
pub fn confirm_client_source(source: &ClientSource, exists: bool) -> (r: Result<(), InvoiceError>)
    ensures
        exists ==> r is Ok,
        !exists && source is Client ==> r == Err::<(), InvoiceError>(InvoiceError::ClientNotFound),
        !exists && source is Booking ==> r == Err::<(), InvoiceError>(
            InvoiceError::BookingNotFound,
        ),
{
    if exists {
        Ok(())
    } else {
        match source {
            ClientSource::Client(_) => Err(InvoiceError::ClientNotFound),
            ClientSource::Booking(_) => Err(InvoiceError::BookingNotFound),
        }
    }
}

/// A full new address: street, city, state, zip all present and a country
/// with a non-empty value.
pub open spec fn full_address(
    street: Option<String>,
    city: Option<String>,
    state: Option<StateCountry>,
    zip: Option<String>,
    country: StateCountry,
) -> bool {
    street is Some && city is Some && state is Some && zip is Some && country.value@.len() > 0
}

/// The address edit an invoice form asks for: only a full new address is
/// applied, with an empty state stored as absent.
pub fn billing_address(
    client_id: &String,
    street: Option<String>,
    city: Option<String>,
    state: Option<StateCountry>,
    zip: Option<String>,
    country: StateCountry,
) -> (r: Option<AddressUpdate>)
    ensures
        full_address(street, city, state, zip, country) <==> r is Some,
        r matches Some(u) ==> u.client_id == *client_id && Some(u.street) == street && Some(u.city)
            == city && u.state == stored_state(state) && Some(u.zip) == zip && u.country
            == country.value,
{
    let has_country = country.value.unicode_len() > 0;
    match (street, city, state, zip) {
        (Some(st), Some(ci), Some(sa), Some(z)) => {
            if has_country {
                Some(update_client_address(client_id.clone(), st, ci, Some(sa), z, country.value))
            } else {
                None
            }
        },
        _ => None,
    }
}

/// An invoice header as it is inserted; the store assigns the number.
#[derive(Clone, Debug)]
pub struct NewInvoice {
    pub invoice_id: String,
    pub client_id: String,
    pub booking_id: Option<String>,
    pub amount_subtotal: Amount,
    pub amount_tax: Amount,
    pub notes: Option<String>,
    pub due_date: Timestamp,
    pub created_at: Timestamp,
}

/// `n` is the next invoice number: one more than the largest number in use,
/// or 1 when there is none.
pub open spec fn next_invoice_number(invoices: Seq<Invoice>, n: int) -> bool {
    &&& forall|i: int| 0 <= i < invoices.len() ==> (#[trigger] invoices[i]).invoice_number < n
    &&& (n == 1 || exists|i: int| 0 <= i < invoices.len() && (#[trigger] invoices[i]).invoice_number == n - 1)
}

/// Numbers a new invoice after every stored one; `None` once the numbers
/// are exhausted.
pub fn generate_invoice_number(invoices: &Vec<Invoice>) -> (r: Option<i64>)
    ensures
        r matches Some(n) ==> next_invoice_number(invoices@, n as int),
        r is None ==> exists|i: int| 0 <= i < invoices@.len() && (#[trigger] invoices@[i]).invoice_number == i64::MAX,
{
    let mut top: i64 = 0;
    let mut k: usize = 0;
    while k < invoices.len()
        invariant
            k <= invoices@.len(),
            top >= 0,
            forall|i: int| 0 <= i < k ==> (#[trigger] invoices@[i]).invoice_number <= top,
            top == 0 || exists|i: int| 0 <= i < k && (#[trigger] invoices@[i]).invoice_number == top,
        decreases invoices@.len() - k,
    {
        if invoices[k].invoice_number > top {
            top = invoices[k].invoice_number;
        }
        k = k + 1;
    }
    if top == i64::MAX {
        None
    } else {
        Some(top + 1)
    }
}

/// Everything creating one invoice writes: the optional address edit, then
/// the header and its lines in one transaction.
#[derive(Clone, Debug)]
pub struct InvoicePlan {
    pub address: Option<AddressUpdate>,
    pub invoice: NewInvoice,
    pub items: Vec<NewInvoiceItem>,
}

/// The tax, zero when none was given.
pub open spec fn tax_or_zero(tax: Option<Amount>) -> Amount {
    match tax {
        Some(t) => t,
        None => Amount { mantissa: 0, scale: 0 },
    }
}

fn tax_or_zero_exec(tax: Option<Amount>) -> (r: Amount)
    ensures
        r == tax_or_zero(tax),
{
    match tax {
        Some(t) => t,
        None => Amount::zero(),
    }
}

/// The subtotal stored for these lines is their exact sum.
pub open spec fn is_subtotal_of(s: Amount, items: Seq<NewInvoiceItem>) -> bool {
    s.wf() && s.scale <= max_scale(items) && s.at_scale(max_scale(items)) == subtotal_value(items)
}

/// Plans the creation of an invoice for a resolved client under a freshly
/// allocated id: the address edit when a full address is given, the header
/// with the exact subtotal and the tax (zero when absent), and the lines.
pub fn create_invoice(
    invoice_id: String,
    client_id: String,
    info: NewInvoiceInfo,
    now: Timestamp,
) -> (r: Result<InvoicePlan, InvoiceError>)
    requires
        items_wf(info.invoice_items@),
    ensures
        r is Err ==> r == Err::<InvoicePlan, InvoiceError>(InvoiceError::AmountOutOfRange),
        totals_in_range(info.invoice_items@, max_scale(info.invoice_items@)) ==> r is Ok,
        r matches Ok(p) ==> {
            &&& p.invoice.amount_subtotal.wf()
            &&& (totals_in_range(info.invoice_items@, max_scale(info.invoice_items@))
                ==> is_subtotal_of(p.invoice.amount_subtotal, info.invoice_items@))
            &&& p.invoice.invoice_id == invoice_id
            &&& p.invoice.client_id == client_id
            &&& p.invoice.booking_id == info.booking_id
            &&& p.invoice.amount_tax == tax_or_zero(info.amount_tax)
            &&& p.invoice.notes == info.notes
            &&& p.invoice.due_date == info.due_date
            &&& p.invoice.created_at == now
            &&& p.items@ == info.invoice_items@
            &&& (full_address(
                info.address_street,
                info.address_city,
                info.address_state,
                info.address_zip,
                info.address_country,
            ) <==> p.address is Some)
            &&& (p.address matches Some(u) ==> u.client_id == client_id && Some(u.street)
                == info.address_street && Some(u.city) == info.address_city && u.state
                == stored_state(info.address_state) && Some(u.zip) == info.address_zip
                && u.country == info.address_country.value)
        },
{
    let sub = match subtotal(&info.invoice_items) {
        Some(s) => s,
        None => {
            return Err(InvoiceError::AmountOutOfRange);
        },
    };
    let address = billing_address(
        &client_id,
        info.address_street,
        info.address_city,
        info.address_state,
        info.address_zip,
        info.address_country,
    );
    let invoice = NewInvoice {
        invoice_id,
        client_id,
        booking_id: info.booking_id,
        amount_subtotal: sub,
        amount_tax: tax_or_zero_exec(info.amount_tax),
        notes: info.notes,
        due_date: info.due_date,
        created_at: now,
    };
    Ok(InvoicePlan { address, invoice, items: info.invoice_items })
}

/// The header fields an edit overwrites.
#[derive(Clone, Debug)]
pub struct InvoiceHeaderUpdate {
    pub invoice_id: String,
    pub amount_subtotal: Amount,
    pub amount_tax: Amount,
    pub notes: Option<String>,
    pub due_date: Timestamp,
    pub payment_completed: bool,
    pub paid_at: Option<Timestamp>,
}

/// Everything one edit writes: the optional address edit, then in one
/// transaction the header, the removal of every old line and the new lines.
#[derive(Clone, Debug)]
pub struct InvoiceEdit {
    pub address: Option<AddressUpdate>,
    pub header: InvoiceHeaderUpdate,
    pub items: Vec<NewInvoiceItem>,
}

/// The payment time to store: the one given when the invoice is paid,
/// nothing otherwise.
pub open spec fn stored_paid_at(completed: bool, paid_at: Option<Timestamp>) -> Option<
    Timestamp,
> {
    if completed {
        paid_at
    } else {
        None
    }
}

/// `e` is the edit that `info` asks of invoice `invoice_id`: the header with
/// the exact subtotal of the new lines (when within the decimal range), the
/// tax (zero when absent), the notes, due date and payment state, the payment
/// time only when paid; the new lines in order; the address edit when a full
/// address is given.
pub open spec fn is_edit_of(e: InvoiceEdit, invoice_id: String, info: EditInvoiceInfo) -> bool {
    &&& e.header.amount_subtotal.wf()
    &&& (totals_in_range(info.invoice_items@, max_scale(info.invoice_items@)) ==> is_subtotal_of(
        e.header.amount_subtotal,
        info.invoice_items@,
    ))
    &&& e.header.invoice_id == invoice_id
    &&& e.header.amount_tax == tax_or_zero(info.amount_tax)
    &&& e.header.notes == info.notes
    &&& e.header.due_date == info.due_date
    &&& e.header.payment_completed == info.payment_completed
    &&& e.header.paid_at == stored_paid_at(info.payment_completed, info.paid_at)
    &&& e.items@ == info.invoice_items@
    &&& (full_address(
        info.address_street,
        info.address_city,
        info.address_state,
        info.address_zip,
        info.address_country,
    ) <==> e.address is Some)
    &&& (e.address matches Some(u) ==> u.client_id == info.client_id && Some(u.street)
        == info.address_street && Some(u.city) == info.address_city && u.state == stored_state(
        info.address_state,
    ) && Some(u.zip) == info.address_zip && u.country == info.address_country.value)
}

/// Plans a whole-document edit of an invoice: the subtotal recomputed from
/// the full new list of lines, the payment time forced to nothing while the
/// invoice is unpaid, and the old lines replaced by the new ones.
pub fn edit_invoice(invoice_id: String, info: EditInvoiceInfo) -> (r: Result<
    InvoiceEdit,
    InvoiceError,
>)
    requires
        items_wf(info.invoice_items@),
    ensures
        r is Err ==> r == Err::<InvoiceEdit, InvoiceError>(InvoiceError::AmountOutOfRange),
        totals_in_range(info.invoice_items@, max_scale(info.invoice_items@)) ==> r is Ok,
        r matches Ok(e) ==> is_edit_of(e, invoice_id, info),
{
    let sub = match subtotal(&info.invoice_items) {
        Some(s) => s,
        None => {
            return Err(InvoiceError::AmountOutOfRange);
        },
    };
    let address = billing_address(
        &info.client_id,
        info.address_street,
        info.address_city,
        info.address_state,
        info.address_zip,
        info.address_country,
    );
    let paid_at = if info.payment_completed {
        info.paid_at
    } else {
        None
    };
    let header = InvoiceHeaderUpdate {
        invoice_id,
        amount_subtotal: sub,
        amount_tax: tax_or_zero_exec(info.amount_tax),
        notes: info.notes,
        due_date: info.due_date,
        payment_completed: info.payment_completed,
        paid_at,
    };
    Ok(InvoiceEdit { address, header, items: info.invoice_items })
}

/// A stored line for an invoice, under a freshly allocated line id.
pub fn invoice_item(invoice_id: String, invoice_item_id: String, item: NewInvoiceItem) -> (r:
    InvoiceItem)
    ensures
        r.invoice_id == invoice_id,
        r.invoice_item_id == invoice_item_id,
        r.description == item.description,
        r.quantity == item.quantity,
        r.unit_price == item.unit_price,
{
    InvoiceItem {
        invoice_id,
        invoice_item_id,
        description: item.description,
        quantity: item.quantity,
        unit_price: item.unit_price,
    }
}

/// Assembles an invoice with its lines and its client; a missing invoice or
/// a missing client is `NotFound`.
pub fn view_invoice(
    invoice: Option<Invoice>,
    invoice_items: Vec<InvoiceItem>,
    client: Option<Client>,
) -> (r: Result<ReturnFullInvoice, ApiStatus>)
    ensures
        (invoice is None || client is None) ==> r == Err::<ReturnFullInvoice, ApiStatus>(
            ApiStatus::NotFound,
        ),
        (invoice is Some && client is Some) ==> (r matches Ok(f) && Some(f.invoice) == invoice
            && Some(f.client) == client && f.invoice_items == invoice_items),
{
    match (invoice, client) {
        (Some(invoice), Some(client)) => Ok(ReturnFullInvoice { invoice, invoice_items, client }),
        _ => Err(ApiStatus::NotFound),
    }
}

} // verus!
