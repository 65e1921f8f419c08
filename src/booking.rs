//! Public booking intake and the booking records staff work with.

use crate::clock::Timestamp;
use crate::gate::BotFailure;
use vstd::prelude::*;

verus! {

/// A category tag as the intake form sends it.
#[derive(Clone, Debug)]
pub struct Category {
    pub value: String,
    pub label: String,
}

/// The public intake form.
#[derive(Clone, Debug)]
pub struct IncomingBookingRequest {
    pub first_name: String,
    pub last_name: String,
    pub phone: Option<String>,
    pub email: Option<String>,
    pub categories: Vec<Category>,
    pub comments: Option<String>,
    /// IANA time zone name, such as `America/Los_Angeles`.
    pub timezone: Option<String>,
}

/// A booking as it is written: everything but the booking number, which the
/// store assigns.
#[derive(Clone, Debug)]
pub struct NewBooking {
    pub booking_id: String,
    pub first_name: String,
    pub last_name: String,
    pub phone: Option<String>,
    pub email: Option<String>,
    pub categories: Vec<String>,
    pub comments: String,
    pub timezone: Option<String>,
    pub completed: bool,
    pub created_at: Timestamp,
}

/// A stored booking request.
#[derive(Clone, Debug)]
pub struct BookingRequest {
    pub booking_id: String,
    pub booking_number: i64,
    pub first_name: String,
    pub last_name: String,
    pub phone: Option<String>,
    pub email: Option<String>,
    pub categories: Vec<String>,
    pub comments: String,
    pub timezone: Option<String>,
    pub completed: bool,
    pub created_at: Timestamp,
}

/// A booking id sent by a staff page.
#[derive(Clone, Debug)]
pub struct BookingID {
    pub booking_id: String,
}

/// A person's contact details as a form sends them.
#[derive(Clone, Debug)]
pub struct ClientNew {
    pub first_name: String,
    pub last_name: String,
    pub phone: String,
    pub email: String,
}

/// The value field of each category tag, in order.
pub open spec fn category_values(cs: Seq<Category>) -> Seq<String> {
    cs.map_values(|c: Category| c.value)
}

/// `b` is the pending booking that `intake` becomes under `booking_id` at `now`:
/// its fields copied, the tags flattened to their values, missing comments
/// written as empty text.
pub open spec fn is_intake_record(
    b: NewBooking,
    intake: IncomingBookingRequest,
    booking_id: String,
    now: Timestamp,
) -> bool {
    &&& b.booking_id == booking_id
    &&& b.first_name == intake.first_name
    &&& b.last_name == intake.last_name
    &&& b.phone == intake.phone
    &&& b.email == intake.email
    &&& b.categories@ == category_values(intake.categories@)
    &&& b.comments@ == match intake.comments {
        Some(c) => c@,
        None => Seq::<char>::empty(),
    }
    &&& b.timezone == intake.timezone
    &&& !b.completed
    &&& b.created_at == now
}

fn flatten_categories(cs: &Vec<Category>) -> (r: Vec<String>)
    ensures
        r@ == category_values(cs@),
{
    let mut r: Vec<String> = Vec::new();
    let mut k: usize = 0;
    while k < cs.len()
        invariant
            k <= cs@.len(),
            r@ == category_values(cs@.take(k as int)),
        decreases cs@.len() - k,
    {
        proof {
            assert(cs@.take(k + 1) =~= cs@.take(k as int).push(cs@[k as int]));
        }
        r.push(cs[k].value.clone());
        proof {
            assert(r@ =~= category_values(cs@.take(k + 1)));
        }
        k = k + 1;
    }
    proof {
        assert(cs@.take(cs@.len() as int) =~= cs@);
    }
    r
}

/// Handles a submitted intake form once the bot gate has judged its token.
/// A rejected token gives that failure and nothing to write; an accepted one
/// gives the pending booking to insert.
pub fn create_booking_request(
    intake: IncomingBookingRequest,
    verdict: Result<(), BotFailure>,
    booking_id: String,
    now: Timestamp,
) -> (r: Result<NewBooking, BotFailure>)
    ensures
        verdict matches Err(e) ==> r == Err::<NewBooking, BotFailure>(e),
        verdict is Ok ==> (r matches Ok(b) && is_intake_record(b, intake, booking_id, now)),
{
    if let Err(e) = verdict {
        return Err(e);
    }
    let categories = flatten_categories(&intake.categories);
    let comments = match intake.comments {
        Some(c) => c,
        None => String::new(),
    };
    Ok(
        NewBooking {
            booking_id,
            first_name: intake.first_name,
            last_name: intake.last_name,
            phone: intake.phone,
            email: intake.email,
            categories,
            comments,
            timezone: intake.timezone,
            completed: false,
            created_at: now,
        },
    )
}

} // verus!
