//! Client records: creation, derivation from a booking, and address edits.

use crate::api::ApiStatus;
use crate::booking::{BookingRequest, IncomingBookingRequest};
use crate::clock::Timestamp;
use crate::search::copy_text;
use vstd::prelude::*;

verus! {

/// A stored client.
#[derive(Clone, Debug)]
pub struct Client {
    pub client_id: String,
    pub first_name: String,
    pub last_name: String,
    pub phone: Option<String>,
    /// Unique among clients when present.
    pub email: Option<String>,
    pub address_street: Option<String>,
    pub address_city: Option<String>,
    pub address_state: Option<String>,
    pub address_zip: Option<String>,
    pub address_country: Option<String>,
    /// IANA time zone name, such as `America/Los_Angeles`.
    pub timezone: Option<String>,
    pub created_at: Timestamp,
}

/// The form staff fill in to add a client by hand.
#[derive(Clone, Debug)]
pub struct NewClient {
    pub first_name: String,
    pub last_name: String,
    pub email: String,
    pub phone: Option<String>,
    pub address_street: Option<String>,
    pub address_city: Option<String>,
    pub address_state: Option<String>,
    pub address_zip: Option<String>,
    pub address_country: Option<String>,
    pub timezone: Option<String>,
}

/// A choice from a state or country list.
#[derive(Clone, Debug)]
pub struct StateCountry {
    pub value: String,
    pub label: String,
}

/// A new postal address for a client.
#[derive(Clone, Debug)]
pub struct AddressUpdate {
    pub client_id: String,
    pub street: String,
    pub city: String,
    /// Absent when no state was chosen: never stored as empty text.
    pub state: Option<String>,
    pub zip: String,
    pub country: String,
}

/// The state to store: the chosen value, or nothing when none was chosen or
/// its value is empty.
pub open spec fn stored_state(state: Option<StateCountry>) -> Option<String> {
    match state {
        Some(s) => if s.value@.len() > 0 {
            Some(s.value)
        } else {
            None
        },
        None => None,
    }
}

/// Builds an address edit, storing an empty state as absent.
pub fn update_client_address(
    client_id: String,
    street: String,
    city: String,
    state: Option<StateCountry>,
    zip: String,
    country: String,
) -> (r: AddressUpdate)
    ensures
        r.client_id == client_id,
        r.street == street,
        r.city == city,
        r.state == stored_state(state),
        r.zip == zip,
        r.country == country,
{
    let state = match state {
        Some(s) => if s.value.unicode_len() > 0 {
            Some(s.value)
        } else {
            None
        },
        None => None,
    };
    AddressUpdate { client_id, street, city, state, zip, country }
}

/// `c` is the client derived from booking `b`: its name, contact details and
/// time zone, no address yet.
pub open spec fn is_client_of_booking(
    c: Client,
    b: BookingRequest,
    client_id: String,
    now: Timestamp,
) -> bool {
    &&& c.client_id == client_id
    &&& c.first_name == b.first_name
    &&& c.last_name == b.last_name
    &&& c.phone == b.phone
    &&& c.email == b.email
    &&& c.address_street is None
    &&& c.address_city is None
    &&& c.address_state is None
    &&& c.address_zip is None
    &&& c.address_country is None
    &&& c.timezone == b.timezone
    &&& c.created_at == now
}

/// The client record to upsert (keyed on e-mail) for a booking, under a
/// freshly allocated id; `NotFound` when the booking does not exist.
pub fn create_client_from_booking(
    booking: Option<&BookingRequest>,
    client_id: String,
    now: Timestamp,
) -> (r: Result<Client, ApiStatus>)
    ensures
        booking is None ==> r == Err::<Client, ApiStatus>(ApiStatus::NotFound),
        booking matches Some(b) ==> (r matches Ok(c) && is_client_of_booking(
            c,
            *b,
            client_id,
            now,
        )),
{
    match booking {
        None => Err(ApiStatus::NotFound),
        Some(b) => Ok(
            Client {
                client_id,
                first_name: b.first_name.clone(),
                last_name: b.last_name.clone(),
                phone: copy_text(&b.phone),
                email: copy_text(&b.email),
                address_street: None,
                address_city: None,
                address_state: None,
                address_zip: None,
                address_country: None,
                timezone: copy_text(&b.timezone),
                created_at: now,
            },
        ),
    }
}

/// The client record a staff member's form becomes under a freshly allocated
/// id.
pub fn create_client(info: NewClient, client_id: String, now: Timestamp) -> (c: Client)
    ensures
        c.client_id == client_id,
        c.first_name == info.first_name,
        c.last_name == info.last_name,
        c.email == Some(info.email),
        c.phone == info.phone,
        c.address_street == info.address_street,
        c.address_city == info.address_city,
        c.address_state == info.address_state,
        c.address_zip == info.address_zip,
        c.address_country == info.address_country,
        c.timezone == info.timezone,
        c.created_at == now,
{
    Client {
        client_id,
        first_name: info.first_name,
        last_name: info.last_name,
        phone: info.phone,
        email: Some(info.email),
        address_street: info.address_street,
        address_city: info.address_city,
        address_state: info.address_state,
        address_zip: info.address_zip,
        address_country: info.address_country,
        timezone: info.timezone,
        created_at: now,
    }
}

/// The outcome of resolving a client by name.
#[derive(Clone, Debug)]
pub enum ClientResolution {
    /// A client with exactly that first and last name exists.
    Existing(String),
    /// No such client: insert this one.
    Create(Client),
}

/// Finds or creates the client named on an intake form, given the id of the
/// client whose first and last name match exactly (`None` when there is
/// none): that client, or a new one under a freshly allocated id with the
/// form's contact details and no address.
pub fn handle_client(
    existing: Option<String>,
    intake: &IncomingBookingRequest,
    client_id: String,
    now: Timestamp,
) -> (r: ClientResolution)
    ensures
        existing matches Some(id) ==> r == ClientResolution::Existing(id),
        existing is None ==> (r matches ClientResolution::Create(c) && c.client_id == client_id
            && c.first_name == intake.first_name && c.last_name == intake.last_name && c.phone
            == intake.phone && c.email == intake.email && c.address_street is None
            && c.address_city is None && c.address_state is None && c.address_zip is None
            && c.address_country is None && c.timezone == intake.timezone && c.created_at == now),
{
    match existing {
        Some(id) => ClientResolution::Existing(id),
        None => ClientResolution::Create(
            Client {
                client_id,
                first_name: intake.first_name.clone(),
                last_name: intake.last_name.clone(),
                phone: copy_text(&intake.phone),
                email: copy_text(&intake.email),
                address_street: None,
                address_city: None,
                address_state: None,
                address_zip: None,
                address_country: None,
                timezone: copy_text(&intake.timezone),
                created_at: now,
            },
        ),
    }
}

} // verus!
