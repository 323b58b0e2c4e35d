use dulacmycamp_api::auth::{invalid_credentials, normalize_email, otp_rejected, password_set_message, session_expired};
use dulacmycamp_api::bookings::{validate_blackout_range, Booking};
use dulacmycamp_api::checkin_info::grants_access;
use dulacmycamp_api::checkout::{require_checkout_approved, require_checkout_eligible};
use dulacmycamp_api::config::trim_trailing_slashes;
use dulacmycamp_api::content_access::is_assignable;
use dulacmycamp_api::dates::{month_length, Date};
use dulacmycamp_api::email_templates::{
    booking_cancelled_notice, booking_pending_to_guest, booking_request_to_admin, checkout_notes_to_admin,
    journal_submitted_to_admin, pretty,
};
use dulacmycamp_api::error::{AppError, ErrorKind};
use dulacmycamp_api::journal::require_moderator;
use dulacmycamp_api::site_content::{album_forbidden, grants_photos_access};
use dulacmycamp_api::text::{
    byte_len_at_least, chars_of, clean, concat2, concat3, contains_char, decimal_string, first_word_of,
    signed_string, str_eq, trim,
};
use dulacmycamp_api::uploads::{ext_for_content_type, output_ext, ImageKind, Output};
use dulacmycamp_api::users::{check_role_change, require_full_name, User};

fn date(y: i32, m: u32, d: u32) -> Date {
    Date::from_ymd_opt(y, m, d).unwrap()
}

fn someone(id: u128, role: &str, is_owner: bool, full_name: Option<&str>) -> User {
    User {
        id,
        email: format!("p{id}@example.com"),
        full_name: full_name.map(str::to_string),
        phone: None,
        relationship: None,
        boat_info: None,
        notes: None,
        role: role.into(),
        is_owner,
        blocked_at: None,
        avatar_url: None,
        has_password: false,
        last_login_at: None,
        created_at: 0,
        updated_at: 0,
    }
}

fn stay() -> Booking {
    Booking {
        id: 5,
        user_id: 1,
        check_in: date(2026, 10, 1),
        check_out: date(2026, 10, 5),
        guest_count_adults: 2,
        guest_count_kids: 0,
        has_pets: false,
        other_requests: None,
        status: "pending".into(),
        denied_reason: None,
        approved_at: None,
        approved_by: None,
        is_private: true,
        created_at: 0,
        updated_at: 0,
    }
}

#[test]
fn fixed_refusals_carry_their_kind_and_sentence() {
    let e = album_forbidden();
    assert_eq!(e.kind(), ErrorKind::Forbidden);
    assert_eq!(e.public_message(), "The camp photo album is for guests who have stayed with us.");
    assert_eq!(e.parts(), (403, "FORBIDDEN"));
    assert_eq!(otp_rejected().public_message(), "That code is invalid or has expired.");
    assert_eq!(otp_rejected().parts(), (401, "UNAUTHORIZED"));
    assert_eq!(session_expired().public_message(), "Your session has expired. Please log in again.");
    assert_eq!(invalid_credentials().kind(), ErrorKind::Unauthorized);
    let hidden = AppError::with_message(ErrorKind::Internal, "db exploded".to_string());
    assert_eq!(hidden.public_message(), "Something went wrong on our end.");
    assert_eq!(hidden.parts(), (500, "INTERNAL"));
}

#[test]
fn the_password_confirmation_says_which_it_was() {
    assert_eq!(password_set_message(false), "Password set.");
    assert_eq!(password_set_message(true), "Password updated.");
}

#[test]
fn emails_are_trimmed_and_lowercased() {
    assert_eq!(normalize_email("  Jean.Dugas@Example.COM "), "jean.dugas@example.com");
}

#[test]
fn arrival_details_open_for_a_live_approved_stay_only() {
    assert!(grants_access("approved", false));
    assert!(!grants_access("approved", true));
    assert!(!grants_access("pending", false));
}

#[test]
fn the_album_opens_for_any_approved_stay() {
    assert!(grants_photos_access("approved"));
    assert!(!grants_photos_access("cancelled"));
}

#[test]
fn only_approved_stays_can_be_checked_out() {
    assert!(require_checkout_approved("approved").is_ok());
    assert!(matches!(
        require_checkout_approved("pending"),
        Err(AppError::BadRequest(m)) if m == "Only approved stays can be checked out."
    ));
}

#[test]
fn a_blackout_may_be_a_single_day_but_not_backwards() {
    assert!(validate_blackout_range(date(2026, 7, 4), date(2026, 7, 4)).is_ok());
    assert!(matches!(
        validate_blackout_range(date(2026, 7, 5), date(2026, 7, 4)),
        Err(AppError::BadRequest(m)) if m == "End date must be on or after the start date."
    ));
}

#[test]
fn only_known_roles_are_assignable() {
    assert!(is_assignable("guest") && is_assignable("user") && is_assignable("admin"));
    assert!(!is_assignable("owner"));
    assert!(check_role_change(1, 2, "user").is_ok());
    assert!(check_role_change(1, 1, "admin").is_ok());
    assert!(matches!(check_role_change(1, 2, "owner"), Err(AppError::BadRequest(_))));
    assert!(check_role_change(1, 1, "guest").is_err());
}

#[test]
fn a_full_name_is_required_and_trimmed() {
    assert_eq!(require_full_name(Some("  Jean Dugas ".into())).unwrap(), "Jean Dugas");
    assert!(matches!(require_full_name(Some("   ".into())), Err(AppError::BadRequest(_))));
    assert!(require_full_name(None).is_err());
}

#[test]
fn moderation_is_for_admins_and_the_owner() {
    assert!(require_moderator(&someone(1, "admin", false, None)).is_ok());
    assert!(require_moderator(&someone(2, "guest", true, None)).is_ok());
    assert!(matches!(
        require_moderator(&someone(3, "user", false, None)),
        Err(AppError::Forbidden(m)) if m == "Only an admin or the camp owner can do that."
    ));
}

#[test]
fn a_user_is_shown_by_name_or_else_email() {
    assert_eq!(someone(1, "guest", false, Some("Jean Dugas")).display_name(), "Jean Dugas");
    assert_eq!(someone(1, "guest", false, None).display_name(), "p1@example.com");
}

#[test]
fn month_lengths_follow_the_gregorian_calendar() {
    assert_eq!(month_length(2024, 2), 29);
    assert_eq!(month_length(2026, 2), 28);
    assert_eq!(month_length(1900, 2), 28);
    assert_eq!(month_length(2000, 2), 29);
    assert_eq!(month_length(2026, 4), 30);
    assert_eq!(month_length(2026, 12), 31);
}

#[test]
fn day_counts_and_the_readable_date() {
    assert_eq!(date(2026, 10, 5).days_after(&date(2026, 10, 1)), 4);
    assert_eq!(date(1970, 1, 1).days_since_epoch(), 0);
    assert_eq!(date(2026, 10, 1).year(), 2026);
    assert_eq!(date(2026, 10, 1).month(), 10);
    assert_eq!(pretty(date(2026, 10, 1)), "Thu, Oct 1, 2026");
    assert_eq!(date(7, 3, 9).format("%b %-d, %Y"), "Mar 9, 0007");
}

#[test]
fn trailing_slashes_are_dropped() {
    assert_eq!(trim_trailing_slashes("https://a.example///"), "https://a.example");
    assert_eq!(trim_trailing_slashes("https://a.example"), "https://a.example");
}

#[test]
fn content_types_map_to_their_extensions() {
    assert_eq!(ext_for_content_type("image/jpeg"), Some("jpg"));
    assert_eq!(ext_for_content_type("image/webp"), Some("webp"));
    assert_eq!(ext_for_content_type("application/pdf"), None);
    assert_eq!(output_ext(Output::EncodePng), "png");
    assert_eq!(output_ext(Output::KeepOriginal(ImageKind::WebP)), "webp");
}

#[test]
fn text_helpers_behave_like_std() {
    assert_eq!(trim("\t hello \n"), "hello");
    assert!(str_eq("camp", "camp") && !str_eq("camp", "Camp"));
    assert_eq!(decimal_string(0), "0");
    assert_eq!(decimal_string(2026), "2026");
    assert_eq!(signed_string(-45), "-45");
    assert_eq!(signed_string(i64::MIN), i64::MIN.to_string());
    assert_eq!(concat2("a", "b"), "ab");
    assert_eq!(concat3("a", "b", "c"), "abc");
    assert_eq!(first_word_of("  Jean Dugas"), Some("Jean"));
    assert_eq!(first_word_of("   "), None);
    assert!(contains_char("a@b", '@') && !contains_char("ab", '@'));
    assert!(byte_len_at_least("é", 2) && !byte_len_at_least("é", 3));
    assert_eq!(chars_of("hé"), vec!['h', 'é']);
    assert_eq!(clean(Some("  x ".into())), Some("x".to_string()));
    assert_eq!(clean(Some("  ".into())), None);
}

#[test]
fn notification_subjects_name_who_and_what() {
    let b = stay();
    assert_eq!(booking_cancelled_notice(&b, "Jean").0, "Jean cancelled a camp booking");
    assert_eq!(booking_request_to_admin(&b, "Jean", "https://camp.example").0, "New booking request from Jean");
    assert_eq!(booking_pending_to_guest(&b, "https://camp.example").0, "Booking request received — Dulac My Camp");
    let notes = checkout_notes_to_admin("Jean", date(2026, 10, 1), date(2026, 10, 5), "sink <leaks>", "https://camp.example");
    assert_eq!(notes.0, "Jean flagged something at checkout");
    assert!(notes.1.contains("sink &lt;leaks&gt;"));
    assert!(notes.2.contains("Dates: Thu, Oct 1, 2026 - Mon, Oct 5, 2026"));
    let story = journal_submitted_to_admin("Jean", date(2026, 10, 1), date(2026, 10, 5), "Reds!", "https://camp.example");
    assert_eq!(story.0, "Jean submitted a journal entry");
    assert!(story.2.contains("Title: Reds!"));
}

#[test]
fn checkout_waits_for_the_departure_day() {
    let out = date(2026, 10, 5);
    assert!(require_checkout_eligible("approved", out, date(2026, 10, 5), false).is_ok());
    assert!(require_checkout_eligible("approved", out, date(2026, 10, 9), false).is_ok());
    assert!(matches!(
        require_checkout_eligible("approved", out, date(2026, 10, 4), false),
        Err(AppError::BadRequest(m)) if m == "Checkout opens on your departure day."
    ));
    assert!(matches!(
        require_checkout_eligible("approved", out, date(2026, 10, 6), true),
        Err(AppError::Conflict(_))
    ));
    assert!(matches!(
        require_checkout_eligible("pending", out, date(2026, 10, 6), false),
        Err(AppError::BadRequest(m)) if m == "Only approved stays can be checked out."
    ));
}

#[test]
fn the_deny_form_escapes_the_guest_name() {
    let page = dulacmycamp_api::email_templates::deny_form_page(
        "https://api.example/deny/t",
        "<script>x</script>",
        "Oct 1 – Oct 5, 2026",
    );
    assert!(page.contains("&lt;script&gt;x&lt;/script&gt; &middot; Oct 1 – Oct 5, 2026"));
    assert!(!page.contains("<script>"));
    let done = dulacmycamp_api::bookings::action_done_page(true, "<b>Jean</b>");
    assert!(done.contains("&lt;b&gt;Jean&lt;/b&gt; has been notified by email."));
}
