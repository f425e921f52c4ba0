use nodeless_api::auth::EmailLoginReq;
use nodeless_api::checkout_service::OrchestrationError;
use nodeless_api::donation_page_repository::RepoError;
use nodeless_api::jwt::AuthError;
use nodeless_api::auth::LoginError;
use nodeless_api::auth::gate_email_login;
use nodeless_api::auth::validate_email_login;
use nodeless_api::config::AppConfig;
use nodeless_api::config::AuthConfig;
use nodeless_api::config::DonationPagesConfig;
use nodeless_api::config::PricingConfig;
use nodeless_api::config::RateLimiterConfig;
use nodeless_api::config::StoresConfig;
use nodeless_api::limiter::AdmissionError;
use nodeless_api::limiter::ApiLimiter;
use nodeless_api::limiter::GuestLimiter;
use nodeless_api::limiter::RateLimitCache;
use nodeless_api::limiter::guest_limiter;

fn test_config() -> AppConfig {
    AppConfig {
        auth: AuthConfig {
            min_password_length: 8,
            require_strong_password: false,
            enable_email_auth: true,
            enable_nost_auth: false,
            enable_identifier_auth: false,
            jwt_expiry_seconds: 3600,
        },
        pricing: PricingConfig { base_fee_sat: 0, fee_rate_percent: 0 },
        stores: StoresConfig { max_stores_per_user: 10 },
        donation_pages: DonationPagesConfig { max_donation_pages_per_user: 10 },
        rate_limiter: RateLimiterConfig {
            api_requests_per_second: 10,
            api_requests_per_minute: 100,
            checkout_requests_per_minute: 10,
            auth_requests_per_hour: 2,
        },
    }
}

#[test]
fn quota_caps_approvals_exactly() {
    // Five checks for one subject against quota 3 approve exactly three,
    // with checks for an unrelated subject interleaved.
    let mut cache = RateLimitCache::new(60);
    let key = "subject-a".to_owned();
    let other = "subject-b".to_owned();
    let now = 1_000;
    let mut approved = 0;
    for _ in 0..5 {
        if cache.check_and_increment(&key, 3, now) {
            approved += 1;
        }
        assert!(cache.check_and_increment(&other, 100, now));
    }
    assert_eq!(approved, 3);
}

#[test]
fn rejected_check_is_not_counted() {
    let mut cache = RateLimitCache::new(60);
    let key = "subject".to_owned();
    assert!(cache.check_and_increment(&key, 1, 10));
    // Over quota: rejected, and the rejection does not consume anything.
    assert!(!cache.check_and_increment(&key, 1, 10));
    assert!(!cache.check_and_increment(&key, 1, 10));
    // Raising the quota shows the count still stands at one.
    assert!(cache.check_and_increment(&key, 2, 10));
}

#[test]
fn expired_entry_reads_as_never_seen() {
    let mut cache = RateLimitCache::new(60);
    let key = "subject".to_owned();
    assert!(cache.check_and_increment(&key, 2, 100));
    assert!(cache.check_and_increment(&key, 2, 100));
    assert!(!cache.check_and_increment(&key, 2, 100));

    // Past the window end (100 + 60), the old entry reads as absent: the
    // same run of checks plays out exactly as for a fresh key.
    let mut fresh = RateLimitCache::new(60);
    let later = 160;
    for (cache_ref, quota) in [(&mut cache, 2u32), (&mut fresh, 2u32)] {
        assert!(cache_ref.check_and_increment(&key, quota, later));
        assert!(cache_ref.check_and_increment(&key, quota, later));
        assert!(!cache_ref.check_and_increment(&key, quota, later));
    }
}

#[test]
fn window_is_fixed_at_first_write() {
    let mut cache = RateLimitCache::new(100);
    let key = "subject".to_owned();
    assert!(cache.check_and_increment(&key, 10, 0));
    // A later increment does not extend the window opened at the first write.
    assert!(cache.check_and_increment(&key, 10, 99));
    // At 100 the window (0 + 100) has closed: the count restarts.
    assert!(cache.check_and_increment(&key, 2, 100));
    assert!(cache.check_and_increment(&key, 2, 100));
    assert!(!cache.check_and_increment(&key, 2, 100));
}

#[test]
fn guest_limiter_counts_by_hashed_identity() {
    let mut limiter = GuestLimiter::new(3600);
    assert!(guest_limiter("198.51.100.7", "app-secret", &mut limiter, 2, 50));
    assert!(guest_limiter("198.51.100.7", "app-secret", &mut limiter, 2, 51));
    assert!(!guest_limiter("198.51.100.7", "app-secret", &mut limiter, 2, 52));
    // Another caller is keyed independently.
    assert!(guest_limiter("203.0.113.9", "app-secret", &mut limiter, 2, 52));
}

#[test]
fn api_limiter_requires_a_token() {
    let mut limiter = ApiLimiter::new(60);
    let r = limiter.check_request(None, 10, 5);
    assert_eq!(r, Err(AdmissionError::MissingToken));

    let token = "bearer-token".to_owned();
    assert_eq!(limiter.check_request(Some(&token), 2, 5), Ok(()));
    assert_eq!(limiter.check_request(Some(&token), 2, 5), Ok(()));
    assert_eq!(limiter.check_request(Some(&token), 2, 5), Err(AdmissionError::TooManyRequests));
}

#[test]
fn third_login_attempt_is_rejected_before_credentials() {
    // Guest login-rate quota of 2 per hour: of three attempts from one
    // source within the window, the first two proceed to credential
    // checking and the third is turned away with the quota error, before
    // any credential or repository work.
    let config = test_config();
    let mut limiter = GuestLimiter::new(3600);
    let data = EmailLoginReq {
        email: "user@example.com".to_owned(),
        password: "longenough".to_owned(),
    };
    let now = 10_000;
    assert!(gate_email_login(&data, &config, &mut limiter, "198.51.100.7", "app-secret", now)
        .is_ok());
    assert!(gate_email_login(&data, &config, &mut limiter, "198.51.100.7", "app-secret", now + 1)
        .is_ok());
    let third = gate_email_login(
        &data,
        &config,
        &mut limiter,
        "198.51.100.7",
        "app-secret",
        now + 2,
    );
    assert_eq!(third, Err(LoginError::TooManyRequests));
}

#[test]
fn validation_rejections_in_order() {
    let config = test_config();

    let mut disabled = config.auth;
    disabled.enable_email_auth = false;
    let data = EmailLoginReq {
        email: "user@example.com".to_owned(),
        password: "longenough".to_owned(),
    };
    assert_eq!(validate_email_login(&data, &disabled), Err(LoginError::LoginMethodDisabled));

    let no_at = EmailLoginReq {
        email: "user.example.com".to_owned(),
        password: "longenough".to_owned(),
    };
    assert_eq!(validate_email_login(&no_at, &config.auth), Err(LoginError::InvalidEmail));

    let short = EmailLoginReq { email: "user@example.com".to_owned(), password: "short".to_owned() };
    assert_eq!(validate_email_login(&short, &config.auth), Err(LoginError::PasswordTooShort));

    assert_eq!(validate_email_login(&data, &config.auth), Ok(()));
    assert_eq!(LoginError::TooManyRequests.http_status(), 429);
    assert_eq!(LoginError::InvalidCredentials.http_status(), 401);
    assert_eq!(LoginError::InvalidEmail.message(), "Invalid email format");
}

#[test]
fn error_kinds_map_to_their_statuses() {
    assert_eq!(RepoError::SlugTaken.http_status(), 409);
    assert_eq!(RepoError::SlugTaken.message(), "Slug already taken");
    assert_eq!(RepoError::NotFound.http_status(), 404);

    assert_eq!(AuthError::Missing.http_status(), 401);
    assert_eq!(AuthError::Missing.message(), "Missing token");
    assert_eq!(AuthError::Expired.http_status(), 401);
    // An expired token reads as invalid to the caller: no leakage of which
    // check failed.
    assert_eq!(AuthError::Expired.message(), "Invalid token");

    assert_eq!(OrchestrationError::RailFailure.http_status(), 500);
    assert_eq!(OrchestrationError::RailFailure.kind(), "rail_failure");
    assert_eq!(OrchestrationError::RenderFailure.kind(), "render_failure");

    assert_eq!(AdmissionError::MissingToken.http_status(), 401);
    assert_eq!(AdmissionError::MissingToken.message(), "Missing api token");
    assert_eq!(AdmissionError::TooManyRequests.http_status(), 429);
}
