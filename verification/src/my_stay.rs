//! The "my stay" card: which of a guest's approved bookings to show, and
//! what they may do about it now.

use crate::checkout::{checkout_eligible, is_checkout_eligible};
use crate::dates::Date;
use crate::journal::{is_journal_eligible, journal_eligible};
use vstd::prelude::*;

verus! {

/// The stay the card shows: the booking in progress or coming up, falling
/// back to the most recent past one.
pub fn pick_relevant_booking<T>(upcoming: Option<T>, past: Option<T>) -> (r: Option<T>)
    ensures
        r == match upcoming {
            Some(u) => Some(u),
            None => past,
        },
{
    match upcoming {
        Some(u) => Some(u),
        None => past,
    }
}

/// A guest's approved booking as the card reads it: id, check-in,
/// check-out, adults, kids.
pub type StayRow = (u128, Date, Date, i32, i32);

/// What the card shows.
#[derive(Debug, Clone)]
pub struct MyStay {
    pub has_stay: bool,
    pub booking_id: Option<u128>,
    pub check_in: Option<Date>,
    pub check_out: Option<Date>,
    pub guest_count_adults: Option<i32>,
    pub guest_count_kids: Option<i32>,
    pub checked_out: Option<bool>,
    pub checkout_eligible: Option<bool>,
    pub journal_eligible: Option<bool>,
    pub journal_status: Option<String>,
}

impl MyStay {
    /// No stay to show: every detail absent.
    pub fn none() -> (m: MyStay)
        ensures
            !m.has_stay,
            m.booking_id is None && m.check_in is None && m.check_out is None,
            m.guest_count_adults is None && m.guest_count_kids is None,
            m.checked_out is None && m.checkout_eligible is None && m.journal_eligible is None,
            m.journal_status is None,
    {
        MyStay {
            has_stay: false,
            booking_id: None,
            check_in: None,
            check_out: None,
            guest_count_adults: None,
            guest_count_kids: None,
            checked_out: None,
            checkout_eligible: None,
            journal_eligible: None,
            journal_status: None,
        }
    }

    /// The card for an approved `stay` on `today`, given whether it has been
    /// checked out and the status of its story, if one exists.
    pub fn of(stay: StayRow, today: Date, checked_out: bool, journal_status: Option<String>) -> (m: MyStay)
        ensures
            m.has_stay,
            m.booking_id == Some(stay.0),
            m.check_in == Some(stay.1),
            m.check_out == Some(stay.2),
            m.guest_count_adults == Some(stay.3),
            m.guest_count_kids == Some(stay.4),
            m.checked_out == Some(checked_out),
            m.checkout_eligible == Some(checkout_eligible("approved"@, stay.2.ymd(), today.ymd(), checked_out)),
            m.journal_eligible == Some(journal_eligible("approved"@, stay.1.ymd(), today.ymd(), journal_status is Some)),
            m.journal_status == journal_status,
    {
        let (booking_id, check_in, check_out, adults, kids) = stay;
        let co = is_checkout_eligible("approved", check_out, today, checked_out);
        let je = is_journal_eligible("approved", check_in, today, journal_status.is_some());
        MyStay {
            has_stay: true,
            booking_id: Some(booking_id),
            check_in: Some(check_in),
            check_out: Some(check_out),
            guest_count_adults: Some(adults),
            guest_count_kids: Some(kids),
            checked_out: Some(checked_out),
            checkout_eligible: Some(co),
            journal_eligible: Some(je),
            journal_status,
        }
    }
}

} // verus!
