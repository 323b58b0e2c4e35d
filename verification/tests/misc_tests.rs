use dulacmycamp_api::config::{allowed_origins, Config, ConfigError, EnvVars};
use dulacmycamp_api::dates::Date;
use dulacmycamp_api::error::AppError;
use dulacmycamp_api::holidays::{us_holidays, Holiday};
use dulacmycamp_api::password::{hash, new_dummy_hash, validate, verify, verify_dummy, MAX_PASSWORD_LEN, MIN_PASSWORD_LEN};
use dulacmycamp_api::solunar::{
    forecast_days, phase_baseline, pressure_modifier, rating_label, star_rating, wind_modifier,
};
use dulacmycamp_api::uploads::{self, plan_output, ImageKind, Output};
use dulacmycamp_api::users::{first_name, require_blockable, require_deletable, HistoryCounts, User};
use dulacmycamp_api::weather::tide_curve_url;

fn date(y: i32, m: u32, d: u32) -> Date {
    Date::from_ymd_opt(y, m, d).unwrap()
}

fn find<'a>(holidays: &'a [Holiday], name: &str) -> &'a Holiday {
    holidays
        .iter()
        .find(|h| h.name == name)
        .unwrap_or_else(|| panic!("{name} missing from the holiday set"))
}

const MON: u32 = 1;
const THU: u32 = 4;

#[test]
fn exactly_ten_holidays() {
    assert_eq!(us_holidays(2026).len(), 10);
}

#[test]
fn fixed_dates_never_move() {
    let h = us_holidays(2026);
    assert_eq!(find(&h, "New Year's Day").date, date(2026, 1, 1));
    assert_eq!(find(&h, "Juneteenth").date, date(2026, 6, 19));
    assert_eq!(find(&h, "Independence Day").date, date(2026, 7, 4));
    assert_eq!(find(&h, "Veterans Day").date, date(2026, 11, 11));
    assert_eq!(find(&h, "Christmas Day").date, date(2026, 12, 25));
}

#[test]
fn thanksgiving_2026_is_november_26() {
    let h = us_holidays(2026);
    let t = find(&h, "Thanksgiving");
    assert_eq!(t.date, date(2026, 11, 26));
    assert_eq!(t.date.weekday_from_sunday(), THU);
}

#[test]
fn memorial_day_2026_is_may_25() {
    let h = us_holidays(2026);
    let m = find(&h, "Memorial Day");
    assert_eq!(m.date, date(2026, 5, 25));
    assert_eq!(m.date.weekday_from_sunday(), MON);
    assert!(m.date.day() + 7 > 31, "the following Monday must fall in June");
}

#[test]
fn floating_holidays_land_on_the_right_weekday() {
    let h = us_holidays(2026);
    assert_eq!(find(&h, "MLK Day").date.weekday_from_sunday(), MON);
    assert_eq!(find(&h, "Presidents Day").date.weekday_from_sunday(), MON);
    assert_eq!(find(&h, "Labor Day").date.weekday_from_sunday(), MON);
    assert_eq!(find(&h, "Thanksgiving").date.weekday_from_sunday(), THU);
}

#[test]
fn known_correct_dates_across_years() {
    assert_eq!(find(&us_holidays(2027), "Thanksgiving").date, date(2027, 11, 25));
    assert_eq!(find(&us_holidays(2024), "Thanksgiving").date, date(2024, 11, 28));
    assert_eq!(find(&us_holidays(2000), "Labor Day").date, date(2000, 9, 4));
    assert_eq!(find(&us_holidays(2024), "Memorial Day").date, date(2024, 5, 27));
}

#[test]
fn works_decades_out() {
    let h = us_holidays(2075);
    assert_eq!(h.len(), 10);
    assert_eq!(find(&h, "Thanksgiving").date.weekday_from_sunday(), THU);
    assert_eq!(find(&h, "Memorial Day").date.weekday_from_sunday(), MON);
}

#[test]
fn holidays_come_back_in_calendar_order() {
    let h = us_holidays(2026);
    for pair in h.windows(2) {
        assert!(pair[0].date.is_before(&pair[1].date), "{:?} not before {:?}", pair[0], pair[1]);
    }
}

#[test]
fn dates_render_as_chrono_renders_them() {
    assert_eq!(date(2026, 10, 1).format("%b %-d"), "Oct 1");
    assert_eq!(date(2026, 10, 5).format("%b %-d, %Y"), "Oct 5, 2026");
    assert_eq!(date(2026, 10, 1).format("%a, %b %-d, %Y"), "Thu, Oct 1, 2026");
    assert_eq!(date(1970, 1, 1).days_since_epoch(), 0);
    assert_eq!(date(2000, 3, 1).days_since_epoch(), 11017);
    assert_eq!(date(1969, 12, 31).weekday_from_sunday(), 3);
    assert!(Date::from_ymd_opt(2026, 2, 29).is_none());
    assert!(Date::from_ymd_opt(2024, 2, 29).is_some());
    assert!(Date::from_ymd_opt(2026, 13, 1).is_none());
}

#[test]
fn validate_enforces_the_length_floor() {
    assert!(validate(&"a".repeat(MIN_PASSWORD_LEN - 1)).is_err());
    assert!(validate(&"a".repeat(MIN_PASSWORD_LEN)).is_ok());
    assert!(validate("a long enough passphrase").is_ok());
}

#[test]
fn length_is_counted_in_characters() {
    let nine = "é".repeat(9);
    assert_eq!(nine.len(), 18, "…and eighteen bytes");
    assert!(validate(&nine).is_err());
    assert!(validate(&"é".repeat(MIN_PASSWORD_LEN)).is_ok());
}

#[test]
fn validate_rejects_absurdly_long_input() {
    assert!(validate(&"a".repeat(MAX_PASSWORD_LEN)).is_ok());
    assert!(validate(&"a".repeat(MAX_PASSWORD_LEN + 1)).is_err());
}

#[test]
fn hash_refuses_what_validate_refuses() {
    assert_eq!(hash("short").unwrap_err(), "Password must be at least 10 characters.");
}

#[test]
fn hash_then_verify_round_trips() {
    let h = hash("correct horse battery staple").unwrap();
    assert!(verify("correct horse battery staple", &h));
    assert!(!verify("Tr0ub4dour&3 not the one", &h));
}

#[test]
fn the_stored_hash_is_not_the_password() {
    let h = hash("a memorable passphrase").unwrap();
    assert!(!h.contains("memorable"));
    assert!(h.starts_with("$argon2id$"), "{h}");
}

#[test]
fn a_malformed_stored_hash_is_not_a_match() {
    assert!(!verify("a memorable passphrase", "not-a-phc-string"));
    assert!(!verify("a memorable passphrase", ""));
}

#[test]
fn the_dummy_hash_never_verifies() {
    let dummy = new_dummy_hash();
    assert!(dummy.starts_with("$argon2id$"), "{dummy}");
    assert!(!verify_dummy("a memorable passphrase", &dummy));
    assert!(!verify_dummy("", &dummy));
    assert!(!verify_dummy(&"a".repeat(64), &dummy));
}

#[test]
fn every_password_the_policy_accepts_hashes() {
    for p in ["a".repeat(MIN_PASSWORD_LEN), "é".repeat(MAX_PASSWORD_LEN), "ten chars!".to_string()] {
        let h = hash(&p).unwrap();
        assert!(verify(&p, &h));
    }
}

#[test]
fn phase_baseline_scores() {
    assert_eq!(phase_baseline("New Moon"), 5);
    assert_eq!(phase_baseline("Full Moon"), 5);
    assert_eq!(phase_baseline("First Quarter"), 3);
    assert_eq!(phase_baseline("Last Quarter"), 3);
    assert_eq!(phase_baseline("Waxing Crescent"), 4);
    assert_eq!(phase_baseline("Waning Gibbous"), 4);
}

#[test]
fn barometer_and_wind_adjust_the_rating() {
    assert_eq!(pressure_modifier("falling"), 1);
    assert_eq!(pressure_modifier("rising"), -1);
    assert_eq!(pressure_modifier("steady"), 0);
    assert_eq!(pressure_modifier("unknown"), 0);
    assert_eq!(wind_modifier(true), -1);
    assert_eq!(wind_modifier(false), 0);
    assert_eq!(star_rating("Full Moon", pressure_modifier("rising"), wind_modifier(true)), 3);
}

#[test]
fn forecast_length_defaults_to_a_week_and_is_bounded() {
    assert_eq!(forecast_days(None), 7);
    assert_eq!(forecast_days(Some(3)), 3);
    assert_eq!(forecast_days(Some(0)), 1);
    assert_eq!(forecast_days(Some(-5)), 1);
    assert_eq!(forecast_days(Some(14)), 14);
    assert_eq!(forecast_days(Some(90)), 14);
}

#[test]
fn star_rating_clamps_and_combines() {
    assert_eq!(star_rating("New Moon", 1, 0), 5);
    assert_eq!(star_rating("Full Moon", -1, -1), 3);
    assert_eq!(star_rating("First Quarter", -1, -1), 1);
    assert_eq!(star_rating("Last Quarter", -1, -1), 1);
    assert_eq!(star_rating("Waxing Crescent", 0, 0), 4);
}

#[test]
fn rating_labels_map() {
    assert_eq!(rating_label(5), "Excellent");
    assert_eq!(rating_label(4), "Good");
    assert_eq!(rating_label(3), "Fair");
    assert_eq!(rating_label(2), "Poor");
    assert_eq!(rating_label(1), "Poor");
}

#[test]
fn tide_curve_url_requests_an_hourly_48h_window() {
    let url = tide_curve_url("8762928", "20260908%2006:00");
    assert!(url.contains("interval=h"), "{url}");
    assert!(url.contains("range=48"), "{url}");
    assert!(url.contains("begin_date=20260908%2006:00"), "{url}");
    assert!(url.contains("station=8762928"), "{url}");
    assert!(url.contains("time_zone=lst_ldt"), "{url}");
}

#[test]
fn uploads_accepts_jpeg_png_webp() {
    assert!(uploads::validate_upload("image/jpeg", 1024).is_ok());
    assert!(uploads::validate_upload("image/png", 1024).is_ok());
    assert!(uploads::validate_upload("image/webp", 1024).is_ok());
}

#[test]
fn uploads_rejects_disallowed_content_types() {
    assert!(uploads::validate_upload("image/gif", 1024).is_err());
    assert!(uploads::validate_upload("application/pdf", 1024).is_err());
    assert!(uploads::validate_upload("text/html", 1024).is_err());
    assert!(uploads::validate_upload("", 1024).is_err());
}

#[test]
fn uploads_rejects_files_over_the_cap() {
    assert!(uploads::validate_upload("image/jpeg", uploads::MAX_IMAGE_BYTES).is_ok());
    assert!(uploads::validate_upload("image/jpeg", uploads::MAX_IMAGE_BYTES + 1).is_err());
}

#[test]
fn uploads_oversized_and_wrong_type_both_report_bad_request() {
    assert!(matches!(uploads::validate_upload("image/gif", 10), Err(AppError::BadRequest(_))));
    assert!(matches!(
        uploads::validate_upload("image/jpeg", uploads::MAX_IMAGE_BYTES + 1),
        Err(AppError::BadRequest(_))
    ));
    assert_eq!(
        uploads::validate_upload("image/jpeg", uploads::MAX_IMAGE_BYTES + 1).unwrap_err().public_message(),
        "Photos must be 20MB or smaller."
    );
}

#[test]
fn uploads_picks_the_extension_matching_the_content_type() {
    assert_eq!(uploads::validate_upload("image/jpeg", 10).unwrap(), "jpg");
    assert_eq!(uploads::validate_upload("image/png", 10).unwrap(), "png");
    assert_eq!(uploads::validate_upload("image/webp", 10).unwrap(), "webp");
}

#[test]
fn each_format_is_stored_by_its_own_rule() {
    assert_eq!(plan_output(ImageKind::Jpeg, false, false), Output::EncodeJpeg);
    assert_eq!(plan_output(ImageKind::Png, false, true), Output::KeepOriginal(ImageKind::Png));
    assert_eq!(plan_output(ImageKind::Png, true, true), Output::EncodePng);
    assert_eq!(plan_output(ImageKind::WebP, true, true), Output::EncodePng);
    assert_eq!(plan_output(ImageKind::WebP, true, false), Output::EncodeJpeg);
    assert_eq!(plan_output(ImageKind::WebP, false, true), Output::KeepOriginal(ImageKind::WebP));
    assert!(uploads::is_oversized(2001, 10));
    assert!(!uploads::is_oversized(2000, 2000));
}

fn user(role: &str, blocked: bool) -> User {
    User {
        id: 0,
        email: "guest@example.com".into(),
        full_name: None,
        phone: None,
        relationship: None,
        boat_info: None,
        notes: None,
        role: role.into(),
        is_owner: false,
        blocked_at: if blocked { Some(1) } else { None },
        avatar_url: None,
        has_password: false,
        last_login_at: None,
        created_at: 0,
        updated_at: 0,
    }
}

#[test]
fn first_name_takes_only_the_first_token() {
    assert_eq!(first_name(Some("Jean Dugas")), "Jean");
    assert_eq!(first_name(Some("Cher")), "Cher");
    assert_eq!(first_name(None), "A guest");
    assert_eq!(first_name(Some("  ")), "A guest");
}

#[test]
fn blocked_at_is_what_makes_an_account_blocked() {
    assert!(!user("guest", false).is_blocked());
    assert!(user("guest", true).is_blocked());
}

#[test]
fn the_family_role_is_not_an_admin_and_sees_no_guest_details() {
    let family = user("user", false);
    assert!(!family.is_admin());
    assert!(!family.sees_guest_details());
}

#[test]
fn the_family_role_can_be_blocked_and_deleted_like_any_non_admin() {
    assert!(require_blockable(&user("user", false)).is_ok());
    assert!(require_deletable(&user("user", false), &HistoryCounts::default()).is_ok());
}

#[test]
fn a_guest_may_be_blocked() {
    assert!(require_blockable(&user("guest", false)).is_ok());
    assert!(require_blockable(&user("guest", true)).is_ok());
}

#[test]
fn an_admin_cannot_be_blocked() {
    let err = require_blockable(&user("admin", false)).expect_err("blocking an admin must be refused");
    assert_eq!(err.parts().0, 400);
    let body = err.public_message();
    assert!(body.contains("admin role"), "unhelpful refusal: {body}");
}

#[test]
fn a_guest_with_nothing_attached_can_be_deleted() {
    assert!(require_deletable(&user("guest", false), &HistoryCounts::default()).is_ok());
    assert!(require_deletable(&user("guest", true), &HistoryCounts::default()).is_ok());
}

#[test]
fn any_history_at_all_refuses_the_delete() {
    let counts = |bookings, journal, messages| HistoryCounts { bookings, journal, messages };
    let cases = [
        ("a booking", counts(1, 0, 0)),
        ("a journal entry", counts(0, 1, 0)),
        ("a message", counts(0, 0, 1)),
    ];
    for (label, history) in cases {
        let Err(err) = require_deletable(&user("guest", false), &history) else {
            panic!("{label} must protect the account from deletion");
        };
        assert_eq!(err.parts().0, 409, "for {label}");
        let body = err.public_message();
        assert!(body.contains("Block"), "for {label}, no pointer to Block: {body}");
    }
}

#[test]
fn an_admin_cannot_be_deleted() {
    let err = require_deletable(&user("admin", false), &HistoryCounts::default())
        .expect_err("deleting an admin must be refused");
    assert_eq!(err.parts().0, 400);
    assert!(err.public_message().contains("admin role"));
}

#[test]
fn internal_errors_never_leak_their_detail() {
    let e = AppError::Internal("connection refused at 10.0.0.3".into());
    assert_eq!(e.parts(), (500, "INTERNAL"));
    assert_eq!(e.public_message(), "Something went wrong on our end.");
}

fn origins(frontend: &str, legacy: Option<&str>) -> Vec<String> {
    allowed_origins(frontend, legacy)
}

#[test]
fn the_frontend_joins_the_dev_servers_in_the_allow_list() {
    assert_eq!(
        origins("https://www.example.com", None),
        ["http://localhost:5173", "http://127.0.0.1:5173", "https://www.example.com"]
    );
}

#[test]
fn a_legacy_origin_is_added_alongside_the_frontend() {
    let list = origins("https://www.example.com", Some("https://old.example.net"));
    assert!(list.contains(&"https://www.example.com".to_owned()));
    assert!(list.contains(&"https://old.example.net".to_owned()));
}

#[test]
fn an_unset_legacy_origin_adds_nothing() {
    assert_eq!(origins("https://www.example.com", None), origins("https://www.example.com", Some("")));
    assert_eq!(origins("https://www.example.com", None), origins("https://www.example.com", Some("   ")));
}

#[test]
fn trailing_slashes_are_trimmed_from_both_urls() {
    let list = origins("https://www.example.com/", Some("https://old.example.net/"));
    assert!(list.contains(&"https://www.example.com".to_owned()));
    assert!(list.contains(&"https://old.example.net".to_owned()));
}

#[test]
fn an_origin_that_cannot_be_a_header_value_is_left_out() {
    assert_eq!(
        origins("https://www.example.com\u{7f}", Some("https://old\nexample.net")),
        ["http://localhost:5173", "http://127.0.0.1:5173"]
    );
    let list = origins("https://café.example", None);
    assert!(list.contains(&"https://café.example".to_owned()));
}

fn env() -> EnvVars {
    EnvVars {
        database_url: Some("postgres://db".into()),
        jwt_secret: Some("s3cret".into()),
        resend_api_key: None,
        email_from_address: None,
        frontend_url: Some("  ".into()),
        legacy_frontend_url: None,
        api_base_url: None,
        owner_email: None,
        admin_email: None,
        noaa_station_id: None,
        capacity_adults: Some("12".into()),
        bind_addr: None,
        port: Some("9000".into()),
        upload_dir: None,
    }
}

#[test]
fn configuration_applies_its_documented_defaults() {
    let c = Config::from_vars(&env()).unwrap();
    assert_eq!(c.frontend_url, "http://localhost:5173");
    assert_eq!(c.capacity_adults, 12);
    assert_eq!(c.bind_addr, "0.0.0.0:9000");
    assert_eq!(c.noaa_station_id, "8762928");
    assert_eq!(c.upload_dir, "/data/uploads");
    let mut bad = env();
    bad.capacity_adults = Some("lots".into());
    assert_eq!(Config::from_vars(&bad).unwrap().capacity_adults, 10);
    bad.capacity_adults = Some("+7".into());
    assert_eq!(Config::from_vars(&bad).unwrap().capacity_adults, 7);
    bad.capacity_adults = Some(" 5".into());
    assert_eq!(Config::from_vars(&bad).unwrap().capacity_adults, 10);
    bad.capacity_adults = Some("99999999999999999999".into());
    assert_eq!(Config::from_vars(&bad).unwrap().capacity_adults, 10);
    for (text, expected) in [
        ("-3", -3),
        ("9223372036854775807", i64::MAX),
        ("-9223372036854775808", i64::MIN),
        ("9223372036854775808", 10),
        ("-", 10),
        ("12a", 10),
        ("007", 7),
    ] {
        bad.capacity_adults = Some(text.into());
        assert_eq!(Config::from_vars(&bad).unwrap().capacity_adults, expected, "{text}");
    }
    bad.jwt_secret = None;
    assert_eq!(Config::from_vars(&bad).unwrap_err(), ConfigError::MissingJwtSecret);
    bad.database_url = Some(" ".into());
    assert_eq!(Config::from_vars(&bad).unwrap_err().message(), "DATABASE_URL is required");
}

#[test]
fn two_hashes_of_one_password_differ() {
    let a = hash("a repeated passphrase").unwrap();
    let b = hash("a repeated passphrase").unwrap();
    assert_ne!(a, b);
    assert!(verify("a repeated passphrase", &a));
    assert!(verify("a repeated passphrase", &b));
}

#[test]
fn a_missing_hash_costs_about_what_a_real_check_costs() {
    let stored = hash("a memorable passphrase").unwrap();

    let t0 = std::time::Instant::now();
    assert!(!verify("the wrong passphrase", &stored));
    let real = t0.elapsed();

    let dummy = new_dummy_hash();
    let t1 = std::time::Instant::now();
    assert!(!verify_dummy("the wrong passphrase", &dummy));
    let dummy = t1.elapsed();

    let ratio = dummy.as_secs_f64() / real.as_secs_f64().max(f64::EPSILON);
    assert!(
        (0.2..5.0).contains(&ratio),
        "dummy {dummy:?} vs real {real:?} — one path is skipping the work"
    );
}
