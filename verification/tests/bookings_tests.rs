use dulacmycamp_api::bookings::{
    action_done_page, action_failed_page, hex_encode, approved_notice, check_token, clean_reason,
    dates_changed, denied_notice, guest_label, new_token, request_notice,
    require_deletable_status, require_owner_or_admin, stay_range, blackout_conflict, check_cancel, guest_count_phrase, guest_counts_changed, is_deletable_status,
    private_by_default, require_pending, select_rows, should_notify_owner_of_cancellation,
    shows_booker, stay_warnings, validate_guest_counts, validate_new_booking, validate_stay_dates,
    warning_text, AdminCreateBooking, Booking, BookingEdit, BookingRow, Capacity, CreateBooking,
    DeleteSummary,
};
use dulacmycamp_api::checkout::flag_notice;
use dulacmycamp_api::dates::Date;
use dulacmycamp_api::email_templates::action_result_page;
use dulacmycamp_api::error::AppError;
use dulacmycamp_api::users::User;

fn date(y: i32, m: u32, d: u32) -> Date {
    Date::from_ymd_opt(y, m, d).unwrap()
}

#[test]
fn cancelling_an_approved_booking_notifies_the_owner() {
    assert!(should_notify_owner_of_cancellation("approved"));
}

#[test]
fn cancelling_a_pending_booking_does_not_notify_the_owner() {
    assert!(!should_notify_owner_of_cancellation("pending"));
}

#[test]
fn a_cancelled_or_denied_or_confirmed_booking_would_never_reach_this_check_again() {
    assert!(!should_notify_owner_of_cancellation("cancelled"));
    assert!(!should_notify_owner_of_cancellation("denied"));
}

#[test]
fn the_guest_count_phrase_pluralises_and_drops_zero_kids() {
    assert_eq!(guest_count_phrase(2, 0), "2 adults");
    assert_eq!(guest_count_phrase(1, 0), "1 adult");
    assert_eq!(guest_count_phrase(3, 1), "3 adults and 1 kid");
    assert_eq!(guest_count_phrase(1, 4), "1 adult and 4 kids");
}

#[test]
fn re_saving_the_same_counts_notifies_nobody() {
    assert!(!guest_counts_changed((2, 1), (2, 1)));
    assert!(!guest_counts_changed((4, 0), (4, 0)));
}

#[test]
fn moving_either_count_notifies_the_guest() {
    assert!(guest_counts_changed((2, 1), (3, 1)));
    assert!(guest_counts_changed((2, 1), (2, 0)));
    assert!(guest_counts_changed((2, 1), (5, 4)));
}

#[test]
fn guest_counts_must_satisfy_the_database_constraints() {
    assert!(validate_guest_counts(1, 0).is_ok());
    assert!(validate_guest_counts(12, 6).is_ok());
    assert!(matches!(validate_guest_counts(0, 2), Err(AppError::BadRequest(_))));
    assert!(matches!(validate_guest_counts(2, -1), Err(AppError::BadRequest(_))));
}

#[test]
fn an_approved_public_booking_is_named_to_a_signed_in_viewer() {
    assert!(shows_booker(true, false, false, "approved"));
}

#[test]
fn a_private_booking_is_never_named_to_ordinary_family() {
    assert!(!shows_booker(true, false, true, "approved"));
    assert!(!shows_booker(false, false, true, "approved"));
}

#[test]
fn an_anonymous_visitor_is_never_shown_a_name_however_public_the_booking() {
    assert!(!shows_booker(false, false, false, "approved"));
}

#[test]
fn a_booking_that_is_not_yet_approved_is_not_named_to_ordinary_family() {
    for status in ["pending", "denied", "cancelled"] {
        assert!(!shows_booker(true, false, false, status));
    }
}

#[test]
fn staff_are_named_every_booking_whatever_its_status_or_privacy() {
    for status in ["approved", "pending", "denied", "cancelled"] {
        for is_private in [true, false] {
            assert!(
                shows_booker(true, true, is_private, status),
                "staff must see {status} / private={is_private}",
            );
        }
    }
}

#[test]
fn the_staff_bypass_does_not_widen_what_family_can_see() {
    for status in ["approved", "pending"] {
        assert!(shows_booker(true, true, true, status));
        assert!(!shows_booker(true, false, true, status));
    }
}

#[test]
fn omitting_the_choice_entirely_yields_a_private_booking() {
    assert!(private_by_default());
    assert!(!shows_booker(true, false, private_by_default(), "approved"));
}

fn admin_form(is_private: bool) -> AdminCreateBooking {
    AdminCreateBooking {
        email: "guest@example.com".into(),
        full_name: Some("Jean Guest".into()),
        check_in: date(2026, 10, 1),
        check_out: date(2026, 10, 5),
        guest_count_adults: 3,
        guest_count_kids: 2,
        has_pets: true,
        other_requests: Some("Bringing a boat trailer".into()),
        is_private,
    }
}

#[test]
fn an_admin_entering_a_booking_also_defaults_it_to_private() {
    let entered = admin_form(private_by_default());
    assert!(entered.is_private);
    assert!(CreateBooking::from(entered).is_private);
}

#[test]
fn the_party_breakdown_is_withheld_from_whoever_may_not_be_told_the_name() {
    for (signed_in, is_private, status) in [
        (true, true, "approved"),
        (false, false, "approved"),
        (true, false, "pending"),
    ] {
        assert!(
            !shows_booker(signed_in, false, is_private, status),
            "{signed_in}/{is_private}/{status} must not be named, and so must not carry a head count either",
        );
    }
}

fn edit(before: (i32, i32, i32, i32), after: (i32, i32, i32, i32)) -> BookingEdit {
    let d = |y: i32| date(2027, 1, y as u32);
    BookingEdit::between(
        (d(before.0), d(before.1), before.2, before.3),
        (d(after.0), d(after.1), after.2, after.3),
    )
}

#[test]
fn moving_only_the_dates_reports_only_the_dates() {
    let e = edit((5, 8, 2, 1), (12, 15, 2, 1));
    assert!(e.dates_from.is_some());
    assert!(e.counts_from.is_none());
    assert!(!e.is_empty());
}

#[test]
fn moving_only_the_counts_reports_only_the_counts() {
    let e = edit((5, 8, 2, 1), (5, 8, 4, 0));
    assert!(e.dates_from.is_none());
    assert!(e.counts_from.is_some());
    assert!(!e.is_empty());
}

#[test]
fn moving_both_reports_both_in_a_single_edit() {
    let e = edit((5, 8, 2, 1), (12, 15, 4, 0));
    assert_eq!(e.dates_from, Some((date(2027, 1, 5), date(2027, 1, 8))));
    assert_eq!(e.counts_from, Some((2, 1)));
    assert!(!e.is_empty());
}

#[test]
fn re_saving_an_unchanged_booking_notifies_nobody() {
    let e = edit((5, 8, 2, 1), (5, 8, 2, 1));
    assert!(e.is_empty());
    assert_eq!(e, BookingEdit { dates_from: None, counts_from: None });
}

#[test]
fn shifting_just_one_end_of_the_stay_counts_as_a_date_change() {
    assert!(edit((5, 8, 2, 1), (5, 9, 2, 1)).dates_from.is_some());
    assert!(edit((5, 8, 2, 1), (4, 8, 2, 1)).dates_from.is_some());
}

#[test]
fn an_edit_cannot_end_a_stay_before_or_when_it_starts() {
    let jan = |d: u32| date(2027, 1, d);
    assert!(validate_stay_dates(jan(5), jan(8)).is_ok());
    assert!(matches!(validate_stay_dates(jan(8), jan(5)), Err(AppError::BadRequest(_))));
    assert!(matches!(validate_stay_dates(jan(5), jan(5)), Err(AppError::BadRequest(_))));
}

#[test]
fn an_edit_may_move_a_stay_that_is_already_in_the_past() {
    assert!(validate_stay_dates(date(2020, 6, 1), date(2020, 6, 4)).is_ok());
}

#[test]
fn an_approved_booking_cannot_be_deleted() {
    assert!(!is_deletable_status("approved"));
}

#[test]
fn a_booking_that_is_not_a_confirmed_stay_can_be_deleted() {
    assert!(is_deletable_status("pending"));
    assert!(is_deletable_status("denied"));
    assert!(is_deletable_status("cancelled"));
}

#[test]
fn cancelling_a_confirmed_stay_makes_it_deletable() {
    assert!(!is_deletable_status("approved"));
    assert!(is_deletable_status("cancelled"));
}

#[test]
fn admin_create_feeds_create_booking_for_the_identical_request_a_guest_submission_would() {
    let expected = CreateBooking {
        check_in: date(2026, 10, 1),
        check_out: date(2026, 10, 5),
        guest_count_adults: 3,
        guest_count_kids: 2,
        has_pets: true,
        other_requests: Some("Bringing a boat trailer".into()),
        is_private: false,
    };
    assert_eq!(CreateBooking::from(admin_form(false)), expected);
}

fn person(id: u128, role: &str, is_owner: bool) -> User {
    User {
        id,
        email: format!("p{id}@example.com"),
        full_name: Some("Jean Dugas".into()),
        phone: None,
        relationship: None,
        boat_info: None,
        notes: None,
        role: role.into(),
        is_owner,
        blocked_at: None,
        avatar_url: None,
        has_password: false,
        last_login_at: None,
        created_at: 0,
        updated_at: 0,
    }
}

fn booking(status: &str, is_private: bool) -> Booking {
    Booking {
        id: 77,
        user_id: 1,
        check_in: date(2026, 10, 1),
        check_out: date(2026, 10, 5),
        guest_count_adults: 2,
        guest_count_kids: 1,
        has_pets: true,
        other_requests: Some("Early arrival".into()),
        status: status.into(),
        denied_reason: None,
        approved_at: Some(5),
        approved_by: Some("owner".into()),
        is_private,
        created_at: 3,
        updated_at: 4,
    }
}

fn row_of(b: Booking) -> BookingRow {
    BookingRow {
        booking: b,
        guest_name: Some("Jean Dugas".into()),
        guest_email: "jean@example.com".into(),
        checked_out: false,
        checkout_notes: Some("All good".into()),
        journal_id: None,
        journal_status: None,
    }
}

#[test]
fn the_booker_and_staff_see_everything_strangers_see_dates_only() {
    let row = row_of(booking("approved", true));
    let mine = row.to_view(Some(&person(1, "guest", false)));
    assert!(mine.is_mine);
    assert_eq!(mine.guest_name.as_deref(), Some("Jean Dugas"));
    assert_eq!(mine.guest_email.as_deref(), Some("jean@example.com"));
    assert_eq!(mine.guest_count_adults, Some(2));
    assert_eq!(mine.guest_first_name, None);

    let owner = row.to_view(Some(&person(9, "guest", true)));
    assert_eq!(owner.guest_first_name.as_deref(), Some("Jean"));
    assert_eq!(owner.checkout_notes.as_deref(), Some("All good"));

    let cousin = row.to_view(Some(&person(2, "user", false)));
    assert!(!cousin.is_mine);
    assert_eq!(cousin.guest_name, None);
    assert_eq!(cousin.guest_first_name, None);
    assert_eq!(cousin.guest_count_adults, None);
    assert_eq!(cousin.check_in, date(2026, 10, 1));

    let anon = row.to_view(None);
    assert_eq!(anon.guest_count_kids, None);
    assert_eq!(anon.user_id, None);
}

#[test]
fn a_public_approved_stay_names_the_booker_by_first_name_only() {
    let row = row_of(booking("approved", false));
    let cousin = row.to_view(Some(&person(2, "user", false)));
    assert_eq!(cousin.guest_first_name.as_deref(), Some("Jean"));
    assert_eq!(cousin.guest_count_adults, Some(2));
    assert_eq!(cousin.guest_email, None);
    assert_eq!(cousin.guest_name, None);
    assert_eq!(row.to_view(None).guest_first_name, None);
}

#[test]
fn a_new_request_is_checked_in_order() {
    let today = date(2026, 9, 1);
    let ok = CreateBooking::from(admin_form(true));
    assert!(validate_new_booking(&person(1, "guest", false), &ok, today).is_ok());
    let mut blocked = person(1, "guest", false);
    blocked.blocked_at = Some(1);
    assert!(matches!(validate_new_booking(&blocked, &ok, today), Err(AppError::Forbidden(_))));
    let mut backwards = ok.clone();
    backwards.check_out = date(2026, 10, 1);
    assert_eq!(
        validate_new_booking(&person(1, "guest", false), &backwards, today).unwrap_err().public_message(),
        "Check-out must be after check-in."
    );
    assert_eq!(
        validate_new_booking(&person(1, "guest", false), &ok, date(2026, 10, 2)).unwrap_err().public_message(),
        "Check-in can't be in the past."
    );
    let mut nobody = ok.clone();
    nobody.guest_count_adults = 0;
    assert_eq!(
        validate_new_booking(&person(1, "guest", false), &nobody, today).unwrap_err().public_message(),
        "At least one adult is required."
    );
    let mut neg = ok.clone();
    neg.guest_count_kids = -1;
    assert_eq!(
        validate_new_booking(&person(1, "guest", false), &neg, today).unwrap_err().public_message(),
        "Kid count can't be negative."
    );
}

#[test]
fn a_blackout_names_its_dates_and_reason() {
    let e = blackout_conflict(date(2026, 12, 24), date(2026, 12, 26), Some("Family Christmas"));
    assert!(matches!(e, AppError::Conflict(_)));
    assert_eq!(
        e.public_message(),
        "The camp is unavailable Dec 24 – Dec 26, 2026 (Family Christmas). Please choose different dates."
    );
    let bare = blackout_conflict(date(2026, 12, 24), date(2027, 1, 2), Some("  "));
    assert_eq!(
        bare.public_message(),
        "The camp is unavailable Dec 24 – Jan 2, 2027. Please choose different dates."
    );
}

#[test]
fn capacity_and_overlap_warnings_are_advisory_sentences() {
    let c = Capacity::assess(8, 3, 10);
    assert_eq!(c.total_adults, 11);
    assert!(c.over_capacity);
    let w = stay_warnings(1, &c);
    assert_eq!(
        warning_text(&w).unwrap(),
        "These dates overlap with an existing booking. The owner will review both requests. That would put 11 adults at the camp, which sleeps 10. The owner will take a look."
    );
    assert_eq!(warning_text(&stay_warnings(0, &Capacity::assess(2, 2, 10))), None);
}

#[test]
fn late_cancellation_of_a_confirmed_stay_needs_an_admin() {
    let b = booking("approved", true);
    let guest = person(1, "guest", false);
    let oct1: i64 = 1_790_812_800_000_000;
    let three_days_before = oct1 - 72 * 3_600_000_000;
    let one_day_before = oct1 - 24 * 3_600_000_000;
    assert!(check_cancel(&b, &guest, three_days_before).is_ok());
    assert!(matches!(check_cancel(&b, &guest, one_day_before), Err(AppError::Forbidden(_))));
    assert!(check_cancel(&b, &person(5, "admin", false), one_day_before).is_ok());
    assert!(matches!(check_cancel(&b, &person(2, "guest", false), three_days_before), Err(AppError::Forbidden(_))));
    let done = booking("denied", true);
    assert_eq!(
        check_cancel(&done, &guest, three_days_before).unwrap_err().public_message(),
        "This booking is already denied."
    );
    assert_eq!(require_pending("approved").unwrap_err().public_message(), "This booking is already approved.");
}

#[test]
fn a_delete_reports_what_went_with_it() {
    let mut row = row_of(booking("cancelled", true));
    row.journal_id = Some(4);
    row.checked_out = true;
    let s = DeleteSummary::of(&row);
    assert!(s.deleted && s.journal_entry && s.checkout);
}

#[test]
fn the_row_query_qualifies_every_booking_column() {
    let sql = select_rows();
    assert!(sql.starts_with("SELECT b.id, b.user_id, b.check_in"));
    assert!(sql.contains("b.updated_at, u.full_name AS guest_name"));
    assert!(sql.contains("LEFT JOIN journal_entries je ON je.booking_id = b.id"));
}

#[test]
fn a_stay_reads_as_a_range_with_the_year_on_its_end() {
    assert_eq!(stay_range(date(2026, 10, 1), date(2026, 10, 5)), "Oct 1 – Oct 5, 2026");
    assert_eq!(stay_range(date(2026, 12, 30), date(2027, 1, 2)), "Dec 30 – Jan 2, 2027");
}

#[test]
fn the_inbox_notes_name_the_stay() {
    let b = booking("pending", true);
    assert_eq!(request_notice("Jean", &b), "Jean requested Oct 1 – Oct 5, 2026.");
    assert_eq!(
        approved_notice(&b),
        "Your stay Oct 1 – Oct 5, 2026 has been approved. See you at the camp!"
    );
    assert_eq!(
        denied_notice(&b, Some("The camp is closed that week.")),
        "Your request for Oct 1 – Oct 5, 2026 wasn't approved. The camp is closed that week."
    );
    assert_eq!(
        denied_notice(&b, None),
        "Your request for Oct 1 – Oct 5, 2026 wasn't approved. Feel free to pick other dates."
    );
    assert_eq!(
        flag_notice("Jean", date(2026, 10, 1), date(2026, 10, 5), "the sink leaks"),
        "Jean flagged something at checkout (Oct 1 – Oct 5, 2026): the sink leaks"
    );
}

#[test]
fn a_blank_denial_reason_is_no_reason() {
    assert_eq!(clean_reason(Some("  full week  ")), Some("full week"));
    assert_eq!(clean_reason(Some("   ")), None);
    assert_eq!(clean_reason(None), None);
}

#[test]
fn a_guest_without_a_name_is_labelled_by_email() {
    let mut row = row_of(booking("pending", true));
    assert_eq!(guest_label(&row), "Jean Dugas");
    row.guest_name = None;
    assert_eq!(guest_label(&row), "jean@example.com");
}

#[test]
fn approval_tokens_are_long_and_fresh() {
    let a = new_token();
    let b = new_token();
    assert_eq!(a.len(), 64);
    assert!(a.chars().all(|c| c.is_ascii_hexdigit()));
    assert_ne!(a, b);
}

#[test]
fn a_one_click_link_acts_once_and_only_in_time() {
    let now = 1_000_000;
    assert_eq!(check_token(true, Some(now + 1), now, Some("pending")), Ok(()));
    assert_eq!(check_token(true, None, now, Some("pending")), Ok(()));
    assert_eq!(
        check_token(false, None, now, None),
        Err(action_result_page(
            "This link is no longer valid",
            "It may have already been used, or the booking was handled in the app.",
            false
        ))
    );
    assert_eq!(
        check_token(true, Some(now - 1), now, Some("pending")),
        Err(action_result_page(
            "This link has expired",
            "Approval links are good for 48 hours. Please handle this booking in the app.",
            false
        ))
    );
    assert_eq!(
        check_token(true, Some(now + 1), now, Some("approved")),
        Err(action_result_page(
            "Already approved",
            "This booking has already been handled — no further action needed.",
            false
        ))
    );
    assert_eq!(
        check_token(true, Some(now + 1), now, None),
        Err(action_result_page("This link is no longer valid", "The booking could not be found.", false))
    );
}

#[test]
fn the_pages_after_a_one_click_action() {
    assert_eq!(
        action_done_page(true, "Jean"),
        action_result_page("Booking approved!", "Jean has been notified by email.", true)
    );
    assert_eq!(
        action_done_page(false, "Jean"),
        action_result_page("Booking denied", "Jean has been notified by email.", true)
    );
    assert_eq!(
        action_failed_page(),
        action_result_page("Something went wrong", "The booking wasn't updated. Please try again.", false)
    );
}

#[test]
fn only_the_guest_or_an_admin_may_act_on_a_booking() {
    let b = booking("pending", true);
    assert!(require_owner_or_admin(&b, &person(1, "guest", false)).is_ok());
    assert!(require_owner_or_admin(&b, &person(2, "admin", false)).is_ok());
    assert!(matches!(
        require_owner_or_admin(&b, &person(2, "user", true)),
        Err(AppError::Forbidden(m)) if m == "That isn't your booking."
    ));
}

#[test]
fn a_confirmed_stay_cannot_be_deleted_directly() {
    assert!(require_deletable_status("pending").is_ok());
    assert!(require_deletable_status("cancelled").is_ok());
    assert!(matches!(require_deletable_status("approved"), Err(AppError::Conflict(_))));
}

#[test]
fn moving_a_date_is_a_change_and_keeping_them_is_not() {
    let d = (date(2026, 10, 1), date(2026, 10, 5));
    assert!(!dates_changed(d, d));
    assert!(dates_changed(d, (date(2026, 10, 2), date(2026, 10, 5))));
}

#[test]
fn bytes_are_written_as_two_lowercase_hex_digits_each() {
    assert_eq!(hex_encode(&vec![0x00, 0x0f, 0xa5, 0xff]), "000fa5ff");
    assert_eq!(hex_encode(&vec![]), "");
}
