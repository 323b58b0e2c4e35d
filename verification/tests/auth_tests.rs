use dulacmycamp_api::auth::{
    authenticate, bearer_token, new_otp_code, otp_code, otp_inbox_limited, otp_network_limited,
    require_admin, require_password_eligible, require_signed_in, too_many_attempts,
    validate_guest_email, validate_login_email, Claims,
};
use dulacmycamp_api::error::AppError;
use dulacmycamp_api::rate_limit::{RateLimiter, RateLimits};
use dulacmycamp_api::users::{User, UserWithHash};

fn user(role: &str, has_password: bool) -> User {
    User {
        id: 0,
        email: "someone@example.com".into(),
        full_name: None,
        phone: None,
        relationship: None,
        boat_info: None,
        notes: None,
        role: role.into(),
        is_owner: false,
        blocked_at: None,
        avatar_url: None,
        has_password,
        last_login_at: None,
        created_at: 0,
        updated_at: 0,
    }
}

fn row(role: &str, hash: Option<&str>) -> UserWithHash {
    UserWithHash {
        user: user(role, hash.is_some()),
        password_hash: hash.map(str::to_string),
    }
}

fn rendered(e: &AppError) -> (u16, String, String) {
    let (status, code) = e.parts();
    (status, code.to_string(), e.public_message())
}

const HASH: &str = "$argon2id$v=19$m=19456,t=2,p=1$c29tZXNhbHQ$aaaaaaaaaaaaaaaaaaaaaaaaaaaaaaaaaaaaaaaaaaa";

#[test]
fn every_failure_mode_renders_the_identical_response() {
    let cases: Vec<(&str, AppError)> = vec![
        ("unknown email", authenticate(None, false).unwrap_err()),
        (
            "guest with a password somehow set",
            authenticate(Some(&row("guest", Some(HASH))), true).unwrap_err(),
        ),
        (
            "guest with no password",
            authenticate(Some(&row("guest", None)), false).unwrap_err(),
        ),
        (
            "admin with no password set",
            authenticate(Some(&row("admin", None)), false).unwrap_err(),
        ),
        (
            "admin with the wrong password",
            authenticate(Some(&row("admin", Some(HASH))), false).unwrap_err(),
        ),
    ];
    let mut seen: Option<(u16, String, String)> = None;
    for (label, err) in cases {
        let got = rendered(&err);
        match &seen {
            None => seen = Some(got),
            Some(first) => assert_eq!(
                &got, first,
                "`{label}` is distinguishable from the first case — the endpoint leaks which part failed",
            ),
        }
    }
    let (status, _, text) = seen.expect("cases is not empty");
    assert_eq!(status, 401);
    for leak in ["admin", "guest", "role", "exists", "not found", "no password"] {
        assert!(!text.to_lowercase().contains(leak), "error body mentions `{leak}`: {text}");
    }
}

#[test]
fn an_admin_with_a_matching_password_authenticates() {
    let entry = row("admin", Some(HASH));
    assert!(authenticate(Some(&entry), true).is_ok());
}

#[test]
fn a_demoted_admin_cannot_use_a_leftover_hash() {
    assert!(authenticate(Some(&row("guest", Some(HASH))), true).is_err());
}

#[test]
fn a_guest_is_forbidden_from_setting_a_password() {
    let err = require_password_eligible(&user("guest", false))
        .expect_err("a guest must not be able to set a password");
    let (status, _, body) = rendered(&err);
    assert_eq!(status, 403);
    assert!(body.contains("admin"));
}

#[test]
fn an_admin_may_set_a_password() {
    assert!(require_password_eligible(&user("admin", false)).is_ok());
    assert!(require_password_eligible(&user("admin", true)).is_ok());
}

#[test]
fn repeated_password_attempts_are_rate_limited() {
    let mut limits = RateLimits::default();
    for i in 0..5 {
        assert!(
            limits.password_per_ip.check("198.51.100.9").is_ok(),
            "attempt {i} should be allowed",
        );
    }
    let retry = limits
        .password_per_ip
        .check("198.51.100.9")
        .expect_err("the sixth attempt should be refused");
    let (status, _, body) = rendered(&too_many_attempts(retry));
    assert_eq!(status, 429);
    assert!(body.contains("emailed code"));
}

#[test]
fn password_attempts_are_limited_per_email_too() {
    let mut limits = RateLimits::default();
    for _ in 0..5 {
        assert!(limits.password_per_email.check("admin@example.com").is_ok());
    }
    assert!(limits.password_per_email.check("admin@example.com").is_err());
    assert!(limits.password_per_email.check("other@example.com").is_ok());
}

fn spend(rl: &mut RateLimiter, key: &str) -> u32 {
    let mut n = 0;
    while rl.check(key).is_ok() {
        n += 1;
        assert!(n < 100, "limiter never refused");
    }
    n
}

#[test]
fn the_password_budget_is_tighter_than_the_otp_budget() {
    let mut limits = RateLimits::default();
    let otp = spend(&mut limits.otp_per_ip, "203.0.113.1");
    let pw = spend(&mut limits.password_per_ip, "203.0.113.1");
    assert!(
        pw <= otp,
        "password allows {pw} attempts, OTP allows {otp} — the password path must not be looser",
    );
}

#[test]
fn the_wait_is_rounded_up_to_whole_minutes() {
    assert_eq!(
        too_many_attempts(900).public_message(),
        "Too many sign-in attempts. Try again in 15 minutes, or sign in with an emailed code."
    );
    assert_eq!(
        too_many_attempts(61).public_message(),
        "Too many sign-in attempts. Try again in 2 minutes, or sign in with an emailed code."
    );
    assert_eq!(
        too_many_attempts(1).public_message(),
        "Too many sign-in attempts. Try again in 1 minute, or sign in with an emailed code."
    );
    assert_eq!(
        otp_network_limited(600).public_message(),
        "Too many login attempts from this network. Try again in 10 minutes."
    );
    assert_eq!(
        otp_inbox_limited(42).public_message(),
        "We just sent a code to that address. Check your inbox, or try again in 42 seconds."
    );
}

#[test]
fn login_codes_are_six_zero_padded_digits() {
    assert_eq!(otp_code(0), "000000");
    assert_eq!(otp_code(42), "000042");
    assert_eq!(otp_code(999_999), "999999");
    let c = new_otp_code();
    assert_eq!(c.len(), 6);
    assert!(c.chars().all(|d| d.is_ascii_digit()));
}

#[test]
fn sign_in_addresses_are_trimmed_lowercased_and_checked() {
    assert_eq!(validate_login_email("  Jean@Example.COM ").unwrap(), "jean@example.com");
    assert!(matches!(validate_login_email("nope"), Err(AppError::BadRequest(_))));
    assert!(matches!(validate_login_email("a@b"), Err(AppError::BadRequest(_))));
    assert_eq!(validate_guest_email(" Guest@Example.com ").unwrap(), "Guest@Example.com");
    assert!(matches!(validate_guest_email("x@y"), Err(AppError::BadRequest(_))));
}

#[test]
fn a_bearer_header_yields_its_trimmed_token() {
    assert_eq!(bearer_token("Bearer abc.def "), Some("abc.def"));
    assert_eq!(bearer_token("Bearer    "), None);
    assert_eq!(bearer_token("Basic abc"), None);
}

#[test]
fn a_session_lasts_a_day_and_names_the_user() {
    let mut u = user("admin", false);
    u.id = 0x67e5_5044_10b1_426f_9247_bb68_0e5f_e0c8;
    let c = Claims::for_user(&u, 1_700_000_000);
    assert_eq!(c.sub, "67e55044-10b1-426f-9247-bb680e5fe0c8");
    assert_eq!(c.exp - c.iat, 24 * 3600);
    assert_eq!(c.role, "admin");
    assert_eq!(dulacmycamp_api::auth::user_id_from_claims(&c).unwrap(), u.id);
}

#[test]
fn only_signed_in_admins_pass_the_admin_gate() {
    assert!(matches!(require_signed_in(None), Err(AppError::Unauthorized(_))));
    assert!(matches!(require_admin(Some(user("guest", false))), Err(AppError::Forbidden(_))));
    assert!(require_admin(Some(user("admin", false))).is_ok());
}

#[test]
fn a_blocked_account_is_turned_away_on_an_open_session() {
    let mut guest = user("guest", false);
    guest.blocked_at = Some(1_700_000_000_000_000);
    assert!(matches!(
        require_signed_in(Some(guest.clone())),
        Err(AppError::Unauthorized(m)) if m == "This account has been blocked."
    ));
    assert!(matches!(require_admin(Some(guest)), Err(AppError::Unauthorized(_))));
    assert!(require_signed_in(Some(user("guest", false))).is_ok());
}
