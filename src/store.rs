//! The records held in memory: the four tables the workflows write to, the
//! meaning of each write on them, and what follows when writes are combined.

use crate::api::ApiStatus;
use crate::booking::{is_intake_record, BookingRequest, IncomingBookingRequest, NewBooking};
use crate::clientele::{is_client_of_booking, AddressUpdate};
use crate::search::copy_text;
use crate::gate::BotFailure;
use crate::ident::{valid_id, IdStep, allocation_step};
use crate::invoicing::{generate_invoice_number, next_invoice_number, is_edit_of, is_subtotal_of, stored_paid_at, EditInvoiceInfo, InvoiceEdit};
use crate::money::{max_scale, totals_in_range};
use crate::clientele::Client;
use crate::invoicing::{Invoice, InvoiceHeaderUpdate, InvoiceItem, NewInvoice};
use crate::money::NewInvoiceItem;
use crate::clock::{is_not_later, not_later, Timestamp};
use vstd::prelude::*;

verus! {

/// The four tables.
pub struct MemoryStore {
    pub clients: Vec<Client>,
    pub bookings: Vec<BookingRequest>,
    pub invoices: Vec<Invoice>,
    pub items: Vec<InvoiceItem>,
}

/// Client `c` has e-mail `e`.
pub open spec fn has_email(c: Client, e: Seq<char>) -> bool {
    c.email matches Some(x) && x@ == e
}

/// Some client in `cs` has e-mail `e`.
pub open spec fn email_taken(cs: Seq<Client>, e: Seq<char>) -> bool {
    exists|i: int| 0 <= i < cs.len() && has_email(#[trigger] cs[i], e)
}

/// No two clients share an e-mail.
pub open spec fn emails_unique(cs: Seq<Client>) -> bool {
    forall|i: int, j: int|
        0 <= i < cs.len() && 0 <= j < cs.len() && i != j && (#[trigger] cs[i]).email is Some
            ==> !has_email(#[trigger] cs[j], cs[i].email->Some_0@)
}

/// The upsert keyed on e-mail: when a client already has the row's e-mail,
/// nothing changes and that client's id is returned; otherwise the row is
/// appended and its own id returned.
pub open spec fn upserted(before: Seq<Client>, row: Client, after: Seq<Client>, id: Seq<char>) -> bool {
    if row.email is Some && email_taken(before, row.email->Some_0@) {
        after == before && exists|i: int|
            0 <= i < before.len() && has_email(#[trigger] before[i], row.email->Some_0@)
                && before[i].client_id@ == id
    } else {
        after == before.push(row) && id == row.client_id@
    }
}

/// The items that belong to invoice `id`.
pub open spec fn belongs_to(id: Seq<char>) -> spec_fn(InvoiceItem) -> bool {
    |it: InvoiceItem| it.invoice_id@ == id
}

/// The items that belong to another invoice than `id`.
pub open spec fn belongs_elsewhere(id: Seq<char>) -> spec_fn(InvoiceItem) -> bool {
    |it: InvoiceItem| it.invoice_id@ != id
}

/// The invoice line a stored item holds.
pub open spec fn line_of(it: InvoiceItem) -> NewInvoiceItem {
    NewInvoiceItem { description: it.description, quantity: it.quantity, unit_price: it.unit_price }
}

/// The header `inv` after the edit `h` if it is the invoice edited.
pub open spec fn header_after(inv: Invoice, h: InvoiceHeaderUpdate) -> Invoice {
    if inv.invoice_id@ == h.invoice_id@ {
        Invoice {
            amount_subtotal: h.amount_subtotal,
            amount_tax: h.amount_tax,
            notes: h.notes,
            due_date: Some(h.due_date),
            payment_completed: h.payment_completed,
            paid_at: h.paid_at,
            ..inv
        }
    } else {
        inv
    }
}

/// `after` is `before` with booking `b` appended, numbered after the
/// bookings already stored; the other tables are untouched.
pub open spec fn inserted_booking(before: MemoryStore, b: NewBooking, after: MemoryStore) -> bool {
    &&& after.clients == before.clients
    &&& after.invoices == before.invoices
    &&& after.items == before.items
    &&& after.bookings@.len() == before.bookings@.len() + 1
    &&& after.bookings@.drop_last() == before.bookings@
    &&& stored_booking(after.bookings@.last(), b, before.bookings@.len() + 1)
}

/// Stored invoice `r` holds the new header `n`, unpaid.
pub open spec fn stored_invoice(r: Invoice, n: NewInvoice) -> bool {
    r.invoice_id == n.invoice_id && r.client_id == Some(n.client_id) && r.booking_id == n.booking_id
        && r.amount_subtotal == n.amount_subtotal && r.amount_tax == n.amount_tax
        && r.amount_total is None && r.payment_method is None && r.notes == n.notes && r.due_date
        == Some(n.due_date) && !r.payment_completed && r.paid_at is None && r.created_at
        == n.created_at
}

/// Stored booking `r` holds `b` under booking number `number`.
pub open spec fn stored_booking(r: BookingRequest, b: NewBooking, number: nat) -> bool {
    r.booking_id == b.booking_id && r.booking_number == number && r.first_name == b.first_name
        && r.last_name == b.last_name && r.phone == b.phone && r.email == b.email && r.categories
        == b.categories && r.comments == b.comments && r.timezone == b.timezone && r.completed
        == b.completed && r.created_at == b.created_at
}

/// What handling one judged intake does: a refused one changes nothing and
/// is `Unauthorized`; an accepted one inserts its booking and is `Created`.
pub open spec fn submitted(
    before: MemoryStore,
    outcome: Result<NewBooking, BotFailure>,
    after: MemoryStore,
    status: ApiStatus,
) -> bool {
    match outcome {
        Err(_) => after == before && status == ApiStatus::Unauthorized,
        Ok(b) => inserted_booking(before, b, after) && status == ApiStatus::Created,
    }
}

/// Client `c` after the address edit `u`, if it is the client edited.
pub open spec fn address_after(c: Client, u: AddressUpdate) -> Client {
    if c.client_id@ == u.client_id@ {
        Client {
            address_street: Some(u.street),
            address_city: Some(u.city),
            address_state: u.state,
            address_zip: Some(u.zip),
            address_country: Some(u.country),
            ..c
        }
    } else {
        c
    }
}

/// An identifier used by some record: a client, a booking, an invoice or an
/// invoice line.
pub open spec fn id_taken(s: MemoryStore, id: Seq<char>) -> bool {
    (exists|i: int| 0 <= i < s.clients@.len() && (#[trigger] s.clients@[i]).client_id@ == id)
        || (exists|i: int|
        0 <= i < s.bookings@.len() && (#[trigger] s.bookings@[i]).booking_id@ == id) || (exists|
        i: int,
    |
        0 <= i < s.invoices@.len() && (#[trigger] s.invoices@[i]).invoice_id@ == id) || (exists|
        i: int,
    |
        0 <= i < s.items@.len() && (#[trigger] s.items@[i]).invoice_item_id@ == id)
}

impl MemoryStore {
    /// The store's invariant: client e-mails are unique.
    pub open spec fn wf(&self) -> bool {
        emails_unique(self.clients@)
    }

    /// Empty tables.
    pub fn new() -> (s: MemoryStore)
        ensures
            s.wf(),
            s.clients@.len() == 0,
            s.bookings@.len() == 0,
            s.invoices@.len() == 0,
            s.items@.len() == 0,
    {
        MemoryStore { clients: Vec::new(), bookings: Vec::new(), invoices: Vec::new(), items: Vec::new() }
    }

    /// Whether a record of any kind already uses `id`.
    pub fn id_in_use(&self, id: &String) -> (r: bool)
        ensures
            r == id_taken(*self, id@),
    {
        let mut k: usize = 0;
        while k < self.clients.len()
            invariant
                k <= self.clients@.len(),
                forall|i: int| 0 <= i < k ==> (#[trigger] self.clients@[i]).client_id@ != id@,
            decreases self.clients@.len() - k,
        {
            if self.clients[k].client_id == *id {
                return true;
            }
            k = k + 1;
        }
        let mut k: usize = 0;
        while k < self.bookings.len()
            invariant
                k <= self.bookings@.len(),
                forall|i: int| 0 <= i < k ==> (#[trigger] self.bookings@[i]).booking_id@ != id@,
            decreases self.bookings@.len() - k,
        {
            if self.bookings[k].booking_id == *id {
                return true;
            }
            k = k + 1;
        }
        let mut k: usize = 0;
        while k < self.invoices.len()
            invariant
                k <= self.invoices@.len(),
                forall|i: int| 0 <= i < k ==> (#[trigger] self.invoices@[i]).invoice_id@ != id@,
            decreases self.invoices@.len() - k,
        {
            if self.invoices[k].invoice_id == *id {
                return true;
            }
            k = k + 1;
        }
        let mut k: usize = 0;
        while k < self.items.len()
            invariant
                k <= self.items@.len(),
                forall|i: int| 0 <= i < k ==> (#[trigger] self.items@[i]).invoice_item_id@ != id@,
            decreases self.items@.len() - k,
        {
            if self.items[k].invoice_item_id == *id {
                return true;
            }
            k = k + 1;
        }
        false
    }

    /// Inserts a booking, numbering it after the ones already stored.
    pub fn insert_booking(&mut self, b: NewBooking)
        requires
            old(self).bookings@.len() < i64::MAX,
        ensures
            inserted_booking(*old(self), b, *final(self)),
    {
        let number = self.bookings.len() as i64 + 1;
        self.bookings.push(
            BookingRequest {
                booking_id: b.booking_id,
                booking_number: number,
                first_name: b.first_name,
                last_name: b.last_name,
                phone: b.phone,
                email: b.email,
                categories: b.categories,
                comments: b.comments,
                timezone: b.timezone,
                completed: b.completed,
                created_at: b.created_at,
            },
        );
        proof {
            assert(self.bookings@.drop_last() =~= old(self).bookings@);
        }
    }

    /// Inserts a client, or, when a client already has its e-mail, keeps that
    /// one; returns the id of the client that holds the e-mail afterwards.
    pub fn upsert_client(&mut self, row: Client) -> (id: String)
        requires
            old(self).wf(),
        ensures
            final(self).wf(),
            upserted(old(self).clients@, row, final(self).clients@, id@),
            final(self).bookings == old(self).bookings,
            final(self).invoices == old(self).invoices,
            final(self).items == old(self).items,
    {
        if let Some(e) = &row.email {
            let mut k: usize = 0;
            while k < self.clients.len()
                invariant
                    k <= self.clients@.len(),
                    *self == *old(self),
                    self.wf(),
                    row.email == Some(*e),
                    forall|i: int| 0 <= i < k ==> !has_email(#[trigger] self.clients@[i], e@),
                decreases self.clients@.len() - k,
            {
                let found = match &self.clients[k].email {
                    Some(x) => x.eq(e),
                    None => false,
                };
                if found {
                    return self.clients[k].client_id.clone();
                }
                k = k + 1;
            }
        }
        let id = row.client_id.clone();
        proof {
            lemma_push_keeps_emails_unique(self.clients@, row);
        }
        self.clients.push(row);
        id
    }

    /// Inserts an invoice header, numbered after every stored invoice;
    /// `InternalError`, writing nothing, once the numbers are exhausted.
    pub fn insert_invoice(&mut self, n: NewInvoice) -> (r: ApiStatus)
        ensures
            final(self).clients == old(self).clients,
            final(self).bookings == old(self).bookings,
            final(self).items == old(self).items,
            r == ApiStatus::InternalError ==> final(self).invoices == old(self).invoices,
            r != ApiStatus::InternalError ==> r == ApiStatus::Created && final(self).invoices@.len()
                == old(self).invoices@.len() + 1 && final(self).invoices@.drop_last() == old(
                self,
            ).invoices@ && stored_invoice(final(self).invoices@.last(), n) && next_invoice_number(
                old(self).invoices@,
                final(self).invoices@.last().invoice_number as int,
            ),
            (r == ApiStatus::InternalError) == exists|i: int|
                0 <= i < old(self).invoices@.len() && (#[trigger] old(self).invoices@[i]).invoice_number
                    == i64::MAX,
    {
        let number = match generate_invoice_number(&self.invoices) {
            Some(x) => x,
            None => {
                return ApiStatus::InternalError;
            },
        };
        self.invoices.push(
            Invoice {
                invoice_id: n.invoice_id,
                invoice_number: number,
                client_id: Some(n.client_id),
                booking_id: n.booking_id,
                amount_subtotal: n.amount_subtotal,
                amount_tax: n.amount_tax,
                amount_total: None,
                payment_method: None,
                notes: n.notes,
                due_date: Some(n.due_date),
                payment_completed: false,
                paid_at: None,
                created_at: n.created_at,
            },
        );
        proof {
            assert(self.invoices@.drop_last() =~= old(self).invoices@);
        }
        ApiStatus::Created
    }

    /// Overwrites the edited fields of the invoice the update names.
    pub fn update_invoice_header(&mut self, h: &InvoiceHeaderUpdate)
        ensures
            final(self).clients == old(self).clients,
            final(self).bookings == old(self).bookings,
            final(self).items == old(self).items,
            final(self).invoices@ == old(self).invoices@.map_values(
                |inv: Invoice| header_after(inv, *h),
            ),
    {
        let ghost before = self.invoices@;
        let mut k: usize = 0;
        while k < self.invoices.len()
            invariant
                k <= self.invoices@.len(),
                self.clients == old(self).clients,
                self.bookings == old(self).bookings,
                self.items == old(self).items,
                self.invoices@.len() == before.len(),
                forall|i: int| 0 <= i < k ==> #[trigger] self.invoices@[i] == header_after(before[i], *h),
                forall|i: int| k <= i < before.len() ==> #[trigger] self.invoices@[i] == before[i],
            decreases self.invoices@.len() - k,
        {
            if self.invoices[k].invoice_id == h.invoice_id {
                let inv = &mut self.invoices[k];
                inv.amount_subtotal = h.amount_subtotal;
                inv.amount_tax = h.amount_tax;
                inv.notes = h.notes.clone();
                inv.due_date = Some(h.due_date);
                inv.payment_completed = h.payment_completed;
                inv.paid_at = h.paid_at;
            }
            k = k + 1;
        }
        proof {
            assert(self.invoices@ =~= before.map_values(|inv: Invoice| header_after(inv, *h)));
        }
    }

    /// Removes every line of invoice `invoice_id` and appends `lines`, which
    /// all belong to it.
    pub fn replace_items(&mut self, invoice_id: &String, lines: Vec<InvoiceItem>)
        requires
            forall|i: int| 0 <= i < lines@.len() ==> (#[trigger] lines@[i]).invoice_id@ == invoice_id@,
        ensures
            final(self).clients == old(self).clients,
            final(self).bookings == old(self).bookings,
            final(self).invoices == old(self).invoices,
            final(self).items@ == old(self).items@.filter(belongs_elsewhere(invoice_id@)) + lines@,
    {
        let ghost before = self.items@;
        let ghost keep = belongs_elsewhere(invoice_id@);
        let mut kept: Vec<InvoiceItem> = Vec::new();
        let mut k: usize = 0;
        while k < self.items.len()
            invariant
                k <= self.items@.len(),
                self.items@ == before,
                keep == belongs_elsewhere(invoice_id@),
                kept@ == before.take(k as int).filter(keep),
            decreases self.items@.len() - k,
        {
            proof {
                reveal(Seq::filter);
                assert(before.take(k + 1).drop_last() =~= before.take(k as int));
            }
            if self.items[k].invoice_id != *invoice_id {
                let it = &self.items[k];
                kept.push(
                    InvoiceItem {
                        invoice_id: it.invoice_id.clone(),
                        invoice_item_id: it.invoice_item_id.clone(),
                        description: it.description.clone(),
                        quantity: it.quantity,
                        unit_price: it.unit_price,
                    },
                );
            }
            k = k + 1;
        }
        proof {
            assert(before.take(before.len() as int) =~= before);
        }
        let mut lines = lines;
        kept.append(&mut lines);
        self.items = kept;
    }

    /// Handles a judged intake: inserts the booking of an accepted one and
    /// answers `Created`; writes nothing for a refused one and answers
    /// `Unauthorized`.
    pub fn submit_booking(&mut self, outcome: Result<NewBooking, BotFailure>) -> (status: ApiStatus)
        requires
            old(self).bookings@.len() < i64::MAX,
        ensures
            submitted(*old(self), outcome, *final(self), status),
    {
        match outcome {
            Ok(b) => {
                self.insert_booking(b);
                ApiStatus::Created
            },
            Err(_) => ApiStatus::Unauthorized,
        }
    }

    /// Checks a candidate identifier against every table: it is allocated
    /// only when no record uses it, else a fresh candidate is drawn.
    pub fn claim_id(&self, candidate: String) -> (r: IdStep)
        ensures
            !id_taken(*self, candidate@) ==> r == IdStep::Allocated(candidate),
            id_taken(*self, candidate@) ==> (r matches IdStep::Redraw(next) && valid_id(next@)),
    {
        let in_use = self.id_in_use(&candidate);
        allocation_step(candidate, in_use)
    }

    /// The positions of the pending bookings, ordered by creation time
    /// (bookings created at the same instant keep their stored order).
    pub fn get_pending_bookings(&self) -> (r: Vec<usize>)
        ensures
            forall|i: int| 0 <= i < r@.len() ==> (#[trigger] r@[i]) < self.bookings@.len()
                && !self.bookings@[r@[i] as int].completed,
            forall|j: int| 0 <= j < self.bookings@.len() && !(#[trigger] self.bookings@[j]).completed
                ==> r@.contains(j as usize),
            r@.no_duplicates(),
            forall|i: int, j: int| 0 <= i < j < r@.len() ==> not_later(
                self.bookings@[r@[i] as int].created_at,
                self.bookings@[r@[j] as int].created_at,
            ),
    {
        let bs = &self.bookings;
        let mut r: Vec<usize> = Vec::new();
        let mut k: usize = 0;
        while k < bs.len()
            invariant
                k <= bs@.len(),
                forall|i: int| 0 <= i < r@.len() ==> (#[trigger] r@[i]) < k && !bs@[r@[i] as int].completed,
                forall|j: int| 0 <= j < k && !(#[trigger] bs@[j]).completed ==> r@.contains(j as usize),
                r@.no_duplicates(),
                forall|i: int, j: int| 0 <= i < j < r@.len() ==> not_later(
                    bs@[r@[i] as int].created_at,
                    bs@[r@[j] as int].created_at,
                ),
            decreases bs@.len() - k,
        {
            if !bs[k].completed {
                let t = &bs[k].created_at;
                let mut p: usize = 0;
                while p < r.len() && is_not_later(&bs[r[p]].created_at, t)
                    invariant
                        p <= r@.len(),
                        k < bs@.len(),
                        *t == bs@[k as int].created_at,
                        forall|i: int| 0 <= i < r@.len() ==> (#[trigger] r@[i]) < k,
                        forall|i: int| 0 <= i < p ==> not_later(bs@[(#[trigger] r@[i]) as int].created_at, *t),
                    decreases r@.len() - p,
                {
                    p = p + 1;
                }
                let ghost old_r = r@;
                proof {
                    // every later position holds a booking created after `t`
                    if p < old_r.len() {
                        assert(!not_later(bs@[old_r[p as int] as int].created_at, *t));
                    }
                }
                r.insert(p, k);
                proof {
                    assert(r@ =~= old_r.subrange(0, p as int).push(k) + old_r.subrange(p as int, old_r.len() as int));
                    assert forall|i: int| 0 <= i < r@.len() implies (#[trigger] r@[i]) < k + 1 && !bs@[r@[i] as int].completed by {
                        if i < p {
                            assert(r@[i] == old_r[i]);
                        } else if i > p {
                            assert(r@[i] == old_r[i - 1]);
                        }
                    }
                    assert forall|j: int| 0 <= j < k + 1 && !(#[trigger] bs@[j]).completed implies r@.contains(j as usize) by {
                        if j == k {
                            assert(r@[p as int] == k);
                        } else {
                            let m = choose|m: int| 0 <= m < old_r.len() && old_r[m] == j as usize;
                            if m < p {
                                assert(r@[m] == old_r[m]);
                            } else {
                                assert(r@[m + 1] == old_r[m]);
                            }
                        }
                    }
                    assert forall|a: int, b: int| 0 <= a < r@.len() && 0 <= b < r@.len() && a != b
                        implies r@[a] != r@[b] by {
                        let oa = if a < p { a } else { a - 1 };
                        let ob = if b < p { b } else { b - 1 };
                        if a != p && b != p {
                            assert(r@[a] == old_r[oa] && r@[b] == old_r[ob]);
                        } else if a == p {
                            assert(r@[b] == old_r[ob]);
                        } else {
                            assert(r@[a] == old_r[oa]);
                        }
                    }
                    assert forall|a: int, b: int| 0 <= a < b < r@.len() implies not_later(
                        bs@[r@[a] as int].created_at,
                        bs@[r@[b] as int].created_at,
                    ) by {
                        if b < p {
                            assert(r@[a] == old_r[a] && r@[b] == old_r[b]);
                        } else if a > p {
                            assert(r@[a] == old_r[a - 1] && r@[b] == old_r[b - 1]);
                        } else if b == p {
                            assert(r@[a] == old_r[a]);
                        } else if a == p {
                            assert(r@[b] == old_r[b - 1]);
                            if b - 1 > p {
                                assert(not_later(bs@[old_r[p as int] as int].created_at, bs@[old_r[b - 1] as int].created_at));
                            }
                        } else {
                            assert(r@[a] == old_r[a] && r@[b] == old_r[b - 1]);
                        }
                    }
                }
            }
            k = k + 1;
        }
        r
    }

    /// Whether a client with this id exists.
    pub fn client_exists(&self, client_id: &String) -> (r: bool)
        ensures
            r == exists|i: int|
                0 <= i < self.clients@.len() && (#[trigger] self.clients@[i]).client_id@
                    == client_id@,
    {
        let mut k: usize = 0;
        while k < self.clients.len()
            invariant
                k <= self.clients@.len(),
                forall|i: int| 0 <= i < k ==> (#[trigger] self.clients@[i]).client_id@ != client_id@,
            decreases self.clients@.len() - k,
        {
            if self.clients[k].client_id == *client_id {
                return true;
            }
            k = k + 1;
        }
        false
    }

    /// Whether a booking with this id exists.
    pub fn booking_exists(&self, booking_id: &String) -> (r: bool)
        ensures
            r == exists|i: int|
                0 <= i < self.bookings@.len() && (#[trigger] self.bookings@[i]).booking_id@
                    == booking_id@,
    {
        let mut k: usize = 0;
        while k < self.bookings.len()
            invariant
                k <= self.bookings@.len(),
                forall|i: int| 0 <= i < k ==> (#[trigger] self.bookings@[i]).booking_id@ != booking_id@,
            decreases self.bookings@.len() - k,
        {
            if self.bookings[k].booking_id == *booking_id {
                return true;
            }
            k = k + 1;
        }
        false
    }

    /// The first client whose first and last name are exactly these.
    pub fn client_named(&self, first_name: &String, last_name: &String) -> (r: Option<String>)
        ensures
            r is None ==> forall|i: int|
                0 <= i < self.clients@.len() ==> !((#[trigger] self.clients@[i]).first_name@
                    == first_name@ && self.clients@[i].last_name@ == last_name@),
            r matches Some(id) ==> exists|i: int|
                0 <= i < self.clients@.len() && (#[trigger] self.clients@[i]).first_name@
                    == first_name@ && self.clients@[i].last_name@ == last_name@
                    && self.clients@[i].client_id == id,
    {
        let mut k: usize = 0;
        while k < self.clients.len()
            invariant
                k <= self.clients@.len(),
                forall|i: int|
                    0 <= i < k ==> !((#[trigger] self.clients@[i]).first_name@ == first_name@
                        && self.clients@[i].last_name@ == last_name@),
            decreases self.clients@.len() - k,
        {
            if self.clients[k].first_name == *first_name && self.clients[k].last_name == *last_name {
                return Some(self.clients[k].client_id.clone());
            }
            k = k + 1;
        }
        None
    }

    /// The client with this id; `NotFound` when there is none.
    pub fn view_client(&self, client_id: &String) -> (r: Result<&Client, ApiStatus>)
        ensures
            r is Err ==> r == Err::<&Client, ApiStatus>(ApiStatus::NotFound) && forall|i: int|
                0 <= i < self.clients@.len() ==> (#[trigger] self.clients@[i]).client_id@
                    != client_id@,
            r matches Ok(c) ==> exists|i: int|
                0 <= i < self.clients@.len() && #[trigger] self.clients@[i] == *c && c.client_id@
                    == client_id@,
    {
        let mut k: usize = 0;
        while k < self.clients.len()
            invariant
                k <= self.clients@.len(),
                forall|i: int| 0 <= i < k ==> (#[trigger] self.clients@[i]).client_id@ != client_id@,
            decreases self.clients@.len() - k,
        {
            if self.clients[k].client_id == *client_id {
                return Ok(&self.clients[k]);
            }
            k = k + 1;
        }
        Err(ApiStatus::NotFound)
    }

    /// The booking with this id; `NotFound` when there is none.
    pub fn view_booking(&self, booking_id: &String) -> (r: Result<&BookingRequest, ApiStatus>)
        ensures
            r is Err ==> r == Err::<&BookingRequest, ApiStatus>(ApiStatus::NotFound) && forall|
                i: int,
            |
                0 <= i < self.bookings@.len() ==> (#[trigger] self.bookings@[i]).booking_id@
                    != booking_id@,
            r matches Ok(b) ==> exists|i: int|
                0 <= i < self.bookings@.len() && #[trigger] self.bookings@[i] == *b
                    && b.booking_id@ == booking_id@,
    {
        let mut k: usize = 0;
        while k < self.bookings.len()
            invariant
                k <= self.bookings@.len(),
                forall|i: int| 0 <= i < k ==> (#[trigger] self.bookings@[i]).booking_id@ != booking_id@,
            decreases self.bookings@.len() - k,
        {
            if self.bookings[k].booking_id == *booking_id {
                return Ok(&self.bookings[k]);
            }
            k = k + 1;
        }
        Err(ApiStatus::NotFound)
    }

    /// Marks a booking completed or pending again; `NotFound` when no booking
    /// has this id. Nothing else changes.
    pub fn set_completion_status(&mut self, booking_id: &String, completed: bool) -> (r: ApiStatus)
        ensures
            final(self).clients == old(self).clients,
            final(self).invoices == old(self).invoices,
            final(self).items == old(self).items,
            final(self).bookings@.len() == old(self).bookings@.len(),
            forall|i: int|
                0 <= i < old(self).bookings@.len() ==> #[trigger] final(self).bookings@[i] == if old(
                    self,
                ).bookings@[i].booking_id@ == booking_id@ {
                    BookingRequest { completed, ..old(self).bookings@[i] }
                } else {
                    old(self).bookings@[i]
                },
            r == if exists|i: int|
                0 <= i < old(self).bookings@.len() && (#[trigger] old(self).bookings@[i]).booking_id@
                    == booking_id@ {
                ApiStatus::Success
            } else {
                ApiStatus::NotFound
            },
    {
        let ghost before = self.bookings@;
        let mut found = false;
        let mut k: usize = 0;
        while k < self.bookings.len()
            invariant
                k <= self.bookings@.len(),
                self.clients == old(self).clients,
                self.invoices == old(self).invoices,
                self.items == old(self).items,
                before == old(self).bookings@,
                self.bookings@.len() == before.len(),
                forall|i: int|
                    0 <= i < k ==> #[trigger] self.bookings@[i] == if before[i].booking_id@
                        == booking_id@ {
                        BookingRequest { completed, ..before[i] }
                    } else {
                        before[i]
                    },
                forall|i: int| k <= i < before.len() ==> #[trigger] self.bookings@[i] == before[i],
                found == exists|i: int| 0 <= i < k && (#[trigger] before[i]).booking_id@ == booking_id@,
            decreases self.bookings@.len() - k,
        {
            if self.bookings[k].booking_id == *booking_id {
                self.bookings[k].completed = completed;
                found = true;
            }
            k = k + 1;
        }
        if found {
            ApiStatus::Success
        } else {
            ApiStatus::NotFound
        }
    }

    /// Writes a new postal address onto the client the edit names.
    pub fn apply_address(&mut self, u: &AddressUpdate)
        ensures
            final(self).bookings == old(self).bookings,
            final(self).invoices == old(self).invoices,
            final(self).items == old(self).items,
            old(self).wf() ==> final(self).wf(),
            final(self).clients@ == old(self).clients@.map_values(|c: Client| address_after(c, *u)),
    {
        let ghost before = self.clients@;
        let mut k: usize = 0;
        while k < self.clients.len()
            invariant
                k <= self.clients@.len(),
                self.bookings == old(self).bookings,
                self.invoices == old(self).invoices,
                self.items == old(self).items,
                before == old(self).clients@,
                self.clients@.len() == before.len(),
                forall|i: int| 0 <= i < k ==> #[trigger] self.clients@[i] == address_after(before[i], *u),
                forall|i: int| k <= i < before.len() ==> #[trigger] self.clients@[i] == before[i],
            decreases self.clients@.len() - k,
        {
            if self.clients[k].client_id == u.client_id {
                let c = &mut self.clients[k];
                c.address_street = Some(u.street.clone());
                c.address_city = Some(u.city.clone());
                c.address_state = copy_text(&u.state);
                c.address_zip = Some(u.zip.clone());
                c.address_country = Some(u.country.clone());
            }
            k = k + 1;
        }
        proof {
            assert(self.clients@ =~= before.map_values(|c: Client| address_after(c, *u)));
            let cs = self.clients@;
            assert forall|i: int, j: int|
                emails_unique(before) && 0 <= i < cs.len() && 0 <= j < cs.len() && i != j && (
                #[trigger] cs[i]).email is Some implies !has_email(#[trigger] cs[j], cs[i].email->Some_0@) by {
                assert(cs[i].email == before[i].email);
                assert(cs[j].email == before[j].email);
            }
        }
    }

}

proof fn lemma_push_keeps_emails_unique(cs: Seq<Client>, row: Client)
    requires
        emails_unique(cs),
        !(row.email is Some && email_taken(cs, row.email->Some_0@)),
    ensures
        emails_unique(cs.push(row)),
{
    let ds = cs.push(row);
    assert forall|i: int, j: int|
        0 <= i < ds.len() && 0 <= j < ds.len() && i != j && (#[trigger] ds[i]).email is Some
            implies !has_email(#[trigger] ds[j], ds[i].email->Some_0@) by {
        if i == ds.len() - 1 {
            assert(ds[j] == cs[j]);
        } else if j == ds.len() - 1 {
            assert(ds[i] == cs[i]);
            if has_email(ds[j], ds[i].email->Some_0@) {
                assert(has_email(cs[i], row.email->Some_0@));
            }
        } else {
            assert(ds[i] == cs[i] && ds[j] == cs[j]);
        }
    }
}

/// An upsert keeps client e-mails unique.
pub proof fn lemma_upsert_keeps_emails_unique(before: Seq<Client>, row: Client, after: Seq<Client>, id: Seq<char>)
    requires
        emails_unique(before),
        upserted(before, row, after, id),
    ensures
        emails_unique(after),
{
    if !(row.email is Some && email_taken(before, row.email->Some_0@)) {
        lemma_push_keeps_emails_unique(before, row);
    }
}

/// Deriving clients from two bookings that share an e-mail yields one
/// client: the second upsert returns the id the first one returned, writes
/// nothing, and exactly one client holds that e-mail.
pub proof fn lemma_client_from_booking_idempotent(
    s0: Seq<Client>,
    s1: Seq<Client>,
    s2: Seq<Client>,
    b1: BookingRequest,
    b2: BookingRequest,
    c1: Client,
    c2: Client,
    n1: String,
    n2: String,
    t1: Timestamp,
    t2: Timestamp,
    id1: Seq<char>,
    id2: Seq<char>,
)
    requires
        emails_unique(s0),
        b1.email is Some,
        b2.email is Some,
        b1.email->Some_0@ == b2.email->Some_0@,
        is_client_of_booking(c1, b1, n1, t1),
        is_client_of_booking(c2, b2, n2, t2),
        upserted(s0, c1, s1, id1),
        upserted(s1, c2, s2, id2),
    ensures
        id1 == id2,
        s2 == s1,
        emails_unique(s2),
        exists|i: int| 0 <= i < s2.len() && has_email(#[trigger] s2[i], b1.email->Some_0@)
            && s2[i].client_id@ == id1,
        forall|i: int, j: int|
            0 <= i < s2.len() && 0 <= j < s2.len() && has_email(#[trigger] s2[i], b1.email->Some_0@)
                && has_email(#[trigger] s2[j], b1.email->Some_0@) ==> i == j,
{
    let e = b1.email->Some_0@;
    lemma_upsert_keeps_emails_unique(s0, c1, s1, id1);
    // after the first upsert some client holds the e-mail, under id1
    let k: int = if email_taken(s0, e) {
        choose|i: int| 0 <= i < s0.len() && has_email(#[trigger] s0[i], e) && s0[i].client_id@ == id1
    } else {
        (s1.len() - 1) as int
    };
    assert(0 <= k < s1.len() && has_email(s1[k], e) && s1[k].client_id@ == id1);
    assert(email_taken(s1, e));
    let j = choose|i: int| 0 <= i < s1.len() && has_email(#[trigger] s1[i], e) && s1[i].client_id@ == id2;
    if j != k {
        assert(s1[k].email is Some);
        assert(!has_email(s1[j], s1[k].email->Some_0@));
    }
    assert forall|i: int, j: int|
        0 <= i < s2.len() && 0 <= j < s2.len() && has_email(#[trigger] s2[i], e) && has_email(
            #[trigger] s2[j],
            e,
        ) implies i == j by {
        if i != j {
            assert(s2[i].email is Some);
            assert(!has_email(s2[j], s2[i].email->Some_0@));
        }
    }
}

proof fn lemma_filter_all(s: Seq<InvoiceItem>, p: spec_fn(InvoiceItem) -> bool)
    requires
        forall|i: int| 0 <= i < s.len() ==> p(#[trigger] s[i]),
    ensures
        s.filter(p) == s,
    decreases s.len(),
{
    reveal(Seq::filter);
    if s.len() > 0 {
        lemma_filter_all(s.drop_last(), p);
        assert(s.drop_last().push(s.last()) =~= s);
    }
}

proof fn lemma_filter_none(s: Seq<InvoiceItem>, p: spec_fn(InvoiceItem) -> bool)
    requires
        forall|i: int| 0 <= i < s.len() ==> !p(#[trigger] s[i]),
    ensures
        s.filter(p) == Seq::<InvoiceItem>::empty(),
    decreases s.len(),
{
    reveal(Seq::filter);
    if s.len() > 0 {
        lemma_filter_none(s.drop_last(), p);
    }
}

/// Editing an invoice replaces its lines: afterwards the invoice holds
/// exactly the new lines, in order, and none of the old ones; the lines of
/// other invoices are untouched; its header carries the exact subtotal of
/// the new lines (within the decimal range), and no payment time while it is
/// unpaid.
pub proof fn lemma_edit_replaces_lines(
    before: MemoryStore,
    mid: MemoryStore,
    after: MemoryStore,
    invoice_id: String,
    info: EditInvoiceInfo,
    edit: InvoiceEdit,
    lines: Seq<InvoiceItem>,
)
    requires
        is_edit_of(edit, invoice_id, info),
        lines.map_values(|it: InvoiceItem| line_of(it)) == edit.items@,
        forall|i: int| 0 <= i < lines.len() ==> (#[trigger] lines[i]).invoice_id@ == invoice_id@,
        mid.items == before.items,
        mid.invoices@ == before.invoices@.map_values(|inv: Invoice| header_after(inv, edit.header)),
        after.invoices == mid.invoices,
        after.items@ == mid.items@.filter(belongs_elsewhere(invoice_id@)) + lines,
    ensures
        after.items@.filter(belongs_to(invoice_id@)).map_values(|it: InvoiceItem| line_of(it))
            == info.invoice_items@,
        after.items@.filter(belongs_elsewhere(invoice_id@)) == before.items@.filter(
            belongs_elsewhere(invoice_id@),
        ),
        forall|i: int|
            0 <= i < after.invoices@.len() && (#[trigger] after.invoices@[i]).invoice_id@
                == invoice_id@ ==> after.invoices@[i].paid_at == stored_paid_at(
                info.payment_completed,
                info.paid_at,
            ) && (totals_in_range(info.invoice_items@, max_scale(info.invoice_items@))
                ==> is_subtotal_of(after.invoices@[i].amount_subtotal, info.invoice_items@)),
{
    let id = invoice_id@;
    let kept = before.items@.filter(belongs_elsewhere(id));
    assert forall|i: int| 0 <= i < kept.len() implies !belongs_to(id)(#[trigger] kept[i]) by {
        before.items@.lemma_filter_pred(belongs_elsewhere(id), i);
    }
    assert forall|i: int| 0 <= i < kept.len() implies belongs_elsewhere(id)(#[trigger] kept[i]) by {
        before.items@.lemma_filter_pred(belongs_elsewhere(id), i);
    }
    Seq::filter_distributes_over_add(kept, lines, belongs_to(id));
    Seq::filter_distributes_over_add(kept, lines, belongs_elsewhere(id));
    lemma_filter_none(kept, belongs_to(id));
    lemma_filter_all(lines, belongs_to(id));
    lemma_filter_all(kept, belongs_elsewhere(id));
    lemma_filter_none(lines, belongs_elsewhere(id));
    assert(Seq::<InvoiceItem>::empty() + lines =~= lines);
    assert(kept + Seq::<InvoiceItem>::empty() =~= kept);
    assert forall|i: int|
        0 <= i < after.invoices@.len() && (#[trigger] after.invoices@[i]).invoice_id@ == id
            implies after.invoices@[i] == header_after(before.invoices@[i], edit.header) by {}
}

/// A refused intake leaves no trace, and a later accepted retry of the same
/// form is stored as exactly one new pending booking.
pub proof fn lemma_refused_intake_then_retry(
    s0: MemoryStore,
    s1: MemoryStore,
    s2: MemoryStore,
    intake: IncomingBookingRequest,
    failure: BotFailure,
    booking_id: String,
    now: Timestamp,
    accepted: NewBooking,
    st1: ApiStatus,
    st2: ApiStatus,
)
    requires
        submitted(s0, Err(failure), s1, st1),
        is_intake_record(accepted, intake, booking_id, now),
        submitted(s1, Ok(accepted), s2, st2),
    ensures
        st1 == ApiStatus::Unauthorized,
        s1 == s0,
        st2 == ApiStatus::Created,
        s2.clients == s0.clients && s2.invoices == s0.invoices && s2.items == s0.items,
        s2.bookings@.len() == s0.bookings@.len() + 1,
        s2.bookings@.drop_last() == s0.bookings@,
        stored_booking(s2.bookings@.last(), accepted, s0.bookings@.len() + 1),
        !s2.bookings@.last().completed,
{
}

} // verus!
