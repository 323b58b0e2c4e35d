use dulacmycamp_api::checkin_info::{self, ItemBody};
use dulacmycamp_api::checkout::{is_checkout_eligible, require_not_already_checked_out};
use dulacmycamp_api::content_access::{decided_by_role, grants, require_configurable, validate_roles, SectionAccess, GUEST_PHOTOS};
use dulacmycamp_api::dates::Date;
use dulacmycamp_api::error::AppError;
use dulacmycamp_api::my_stay::{pick_relevant_booking, MyStay};
use dulacmycamp_api::site_content;

fn date(y: i32, m: u32, d: u32) -> Date {
    Date::from_ymd_opt(y, m, d).unwrap()
}

#[test]
fn zero_approved_bookings_means_no_access() {
    assert!(!checkin_info::has_access(&[]));
    assert!(!checkin_info::has_access(&[("denied", false), ("cancelled", false), ("pending", false)]));
}

#[test]
fn a_past_approved_booking_still_grants_access() {
    assert!(checkin_info::has_access(&[("approved", false)]));
}

#[test]
fn a_checked_out_approved_booking_no_longer_grants_access() {
    assert!(!checkin_info::has_access(&[("approved", true)]));
}

#[test]
fn access_returns_the_moment_a_new_booking_is_approved() {
    assert!(checkin_info::has_access(&[("approved", true), ("denied", false), ("approved", false)]));
}

#[test]
fn item_body_rejects_blank_title_and_body() {
    let blank_title = ItemBody { title: "   ".into(), body: "Something".into(), sort_order: 0 };
    assert!(matches!(blank_title.validated(), Err(AppError::BadRequest(_))));
    let blank_body = ItemBody { title: "Key Location".into(), body: "   ".into(), sort_order: 0 };
    assert!(matches!(blank_body.validated(), Err(AppError::BadRequest(_))));
    let ok = ItemBody {
        title: " Key Location ".into(),
        body: " Under the third flowerpot. ".into(),
        sort_order: 0,
    };
    assert_eq!(ok.validated().unwrap(), ("Key Location", "Under the third flowerpot."));
}

#[test]
fn excludes_bookings_not_yet_at_check_out_date() {
    assert!(!is_checkout_eligible("approved", date(2026, 9, 5), date(2026, 9, 4), false));
}

#[test]
fn check_out_day_itself_is_eligible() {
    let today = date(2026, 9, 4);
    assert!(is_checkout_eligible("approved", today, today, false));
}

#[test]
fn a_stay_that_departed_in_the_past_is_eligible() {
    assert!(is_checkout_eligible("approved", date(2026, 8, 28), date(2026, 9, 4), false));
}

#[test]
fn excludes_bookings_with_an_existing_checkout() {
    let today = date(2026, 9, 4);
    assert!(!is_checkout_eligible("approved", today, today, true));
}

#[test]
fn excludes_bookings_that_are_not_approved() {
    let today = date(2026, 9, 4);
    for status in ["pending", "denied", "cancelled"] {
        assert!(!is_checkout_eligible(status, today, today, false), "{status} should not be eligible");
    }
}

#[test]
fn duplicate_checkout_submission_is_blocked() {
    assert!(require_not_already_checked_out(false).is_ok());
    assert!(matches!(require_not_already_checked_out(true), Err(AppError::Conflict(_))));
}

fn section(roles: &[&str], booking_grants: bool) -> SectionAccess {
    SectionAccess {
        section_key: GUEST_PHOTOS.into(),
        label: "Camp photo album".into(),
        description: String::new(),
        allowed_roles: roles.iter().map(|r| (*r).to_string()).collect(),
        approved_booking_grants: booking_grants,
        configurable: true,
        sort_order: 1,
        updated_at: 0,
    }
}

#[test]
fn a_family_member_needs_no_booking() {
    let s = section(&["user", "admin"], true);
    assert!(grants(&s, "user", false));
    assert!(grants(&s, "admin", false));
}

#[test]
fn a_guest_who_has_stayed_still_gets_in_without_being_promoted() {
    assert!(grants(&section(&["user", "admin"], true), "guest", true));
}

#[test]
fn a_guest_who_has_never_stayed_is_turned_away() {
    assert!(!grants(&section(&["user", "admin"], true), "guest", false));
}

#[test]
fn closing_a_role_off_takes_effect() {
    let closed = section(&["admin"], true);
    assert!(!grants(&closed, "user", false));
    assert!(grants(&closed, "user", true));
}

#[test]
fn dropping_the_booking_route_leaves_only_roles() {
    let roles_only = section(&["user"], false);
    assert!(!grants(&roles_only, "guest", true));
    assert!(grants(&roles_only, "user", false));
}

#[test]
fn a_section_open_to_nobody_admits_nobody() {
    let shut = section(&[], false);
    for role in ["guest", "user", "admin"] {
        assert!(!grants(&shut, role, false));
        assert!(!grants(&shut, role, true));
    }
}

#[test]
fn unknown_roles_are_rejected_rather_than_stored_as_dead_toggles() {
    assert!(validate_roles(&["guest".into(), "user".into()]).is_ok());
    assert!(matches!(validate_roles(&["owner".into()]), Err(AppError::BadRequest(_))));
    assert_eq!(
        validate_roles(&["user".into(), "owner".into(), "boss".into()]).unwrap_err().public_message(),
        "'owner' is not a role. Valid roles: guest, user, admin."
    );
}

#[test]
fn a_booking_gated_section_refuses_role_edits() {
    let mut s = section(&["user"], true);
    s.configurable = false;
    s.label = "Journal entry".into();
    assert_eq!(
        require_configurable(&s).unwrap_err().public_message(),
        "\"Journal entry\" isn't role-configurable — access to it depends on a booking, not on who someone is."
    );
}

#[test]
fn prefers_upcoming_over_past_when_both_exist() {
    assert_eq!(pick_relevant_booking(Some("upcoming"), Some("past")), Some("upcoming"));
}

#[test]
fn falls_back_to_past_when_no_upcoming_booking() {
    assert_eq!(pick_relevant_booking(None, Some("past")), Some("past"));
}

#[test]
fn no_stay_when_neither_upcoming_nor_past_exists() {
    assert_eq!(pick_relevant_booking::<&str>(None, None), None);
}

#[test]
fn the_stay_card_reports_what_can_be_done_today() {
    let none = MyStay::none();
    assert!(!none.has_stay && none.booking_id.is_none());
    let card = MyStay::of((9, date(2026, 9, 1), date(2026, 9, 4), 2, 0), date(2026, 9, 4), false, None);
    assert_eq!(card.checkout_eligible, Some(true));
    assert_eq!(card.journal_eligible, Some(true));
    let early = MyStay::of((9, date(2026, 9, 10), date(2026, 9, 14), 2, 0), date(2026, 9, 4), false, None);
    assert_eq!(early.checkout_eligible, Some(false));
    assert_eq!(early.journal_eligible, Some(false));
}

#[test]
fn site_content_accepts_jpeg_png_webp() {
    assert!(site_content::validate_upload("image/jpeg", 1024).is_ok());
    assert!(site_content::validate_upload("image/png", 1024).is_ok());
    assert!(site_content::validate_upload("image/webp", 1024).is_ok());
}

#[test]
fn site_content_rejects_disallowed_content_types() {
    assert!(site_content::validate_upload("image/gif", 1024).is_err());
    assert!(site_content::validate_upload("application/pdf", 1024).is_err());
    assert!(site_content::validate_upload("text/html", 1024).is_err());
    assert!(site_content::validate_upload("", 1024).is_err());
}

#[test]
fn site_content_rejects_files_over_the_cap() {
    assert!(site_content::validate_upload("image/jpeg", site_content::MAX_IMAGE_BYTES).is_ok());
    assert!(site_content::validate_upload("image/jpeg", site_content::MAX_IMAGE_BYTES + 1).is_err());
}

#[test]
fn a_guest_with_no_approved_booking_is_turned_away() {
    assert!(!site_content::has_access(&[]));
    assert!(!site_content::has_access(&["pending"]));
    assert!(!site_content::has_access(&["denied"]));
    assert!(!site_content::has_access(&["cancelled"]));
    assert!(!site_content::has_access(&["pending", "denied", "cancelled"]));
}

#[test]
fn one_approved_booking_is_enough() {
    assert!(site_content::has_access(&["approved"]));
    assert!(site_content::has_access(&["denied", "approved", "pending"]));
}

#[test]
fn a_completed_past_stay_still_grants_album_access() {
    assert!(!checkin_info::has_access(&[("approved", true)]));
    assert!(site_content::has_access(&["approved"]));
}

#[test]
fn site_content_oversized_and_wrong_type_both_report_bad_request() {
    assert!(matches!(site_content::validate_upload("image/gif", 10), Err(AppError::BadRequest(_))));
    assert!(matches!(
        site_content::validate_upload("image/jpeg", site_content::MAX_IMAGE_BYTES + 1),
        Err(AppError::BadRequest(_))
    ));
}

#[test]
fn site_content_picks_the_extension_matching_the_content_type() {
    assert_eq!(site_content::validate_upload("image/jpeg", 10).unwrap(), "jpg");
    assert_eq!(site_content::validate_upload("image/png", 10).unwrap(), "png");
    assert_eq!(site_content::validate_upload("image/webp", 10).unwrap(), "webp");
}

#[test]
fn site_settings_need_a_title_subtitle_and_a_web_link() {
    let mut s = site_content::UpdateSettings {
        hero_title: " Dulac My Camp ".into(),
        hero_subtitle: "On the bayou".into(),
        about_text: " A camp. ".into(),
        guest_photos_url: Some(" https://photos.example.com/album ".into()),
    };
    let ok = s.validated().unwrap();
    assert_eq!(ok.hero_title, "Dulac My Camp");
    assert_eq!(ok.about_text, "A camp.");
    assert_eq!(ok.guest_photos_url.as_deref(), Some("https://photos.example.com/album"));
    s.guest_photos_url = Some("ftp://x".into());
    assert_eq!(
        s.validated().unwrap_err().public_message(),
        "Guest photos link must start with http:// or https://."
    );
    s.guest_photos_url = Some("   ".into());
    assert_eq!(s.validated().unwrap().guest_photos_url, None);
    s.hero_subtitle = " ".into();
    assert_eq!(s.validated().unwrap_err().public_message(), "Hero subtitle is required.");
}

#[test]
fn role_alone_settles_admission_unless_bookings_count() {
    let family_only = section(&["user", "admin"], false);
    assert_eq!(decided_by_role(&family_only, "user"), Some(true));
    assert_eq!(decided_by_role(&family_only, "guest"), Some(false));

    let stayed_counts = section(&["user", "admin"], true);
    assert_eq!(decided_by_role(&stayed_counts, "admin"), Some(true));
    assert_eq!(decided_by_role(&stayed_counts, "guest"), None);
    assert!(grants(&stayed_counts, "guest", true));
    assert!(!grants(&stayed_counts, "guest", false));
}
